use vstd::prelude::*;
use crate::text::{chars_of, same_chars};

verus! {

/// The distributions that have a name and an art block of their own.
#[derive(Clone, Copy, Debug, PartialEq, Eq, Structural)]
pub enum Distro {
    Arch,
    Artix,
    CurtainOs,
    Debian,
    EndeavourOs,
    Gentoo,
    LinuxLite,
    Ubuntu,
    Unknown,
}

/// The registry entry for a lower-case distribution identifier.
pub open spec fn distro_of(id: Seq<char>) -> Distro {
    if id == "arch"@ {
        Distro::Arch
    } else if id == "artix"@ {
        Distro::Artix
    } else if id == "curtainos"@ {
        Distro::CurtainOs
    } else if id == "debian"@ {
        Distro::Debian
    } else if id == "endeavouros"@ {
        Distro::EndeavourOs
    } else if id == "gentoo"@ {
        Distro::Gentoo
    } else if id == "linuxlite"@ {
        Distro::LinuxLite
    } else if id == "ubuntu"@ {
        Distro::Ubuntu
    } else {
        Distro::Unknown
    }
}

/// Whether the registry holds an entry of its own for `id`.
pub open spec fn is_registered(id: Seq<char>) -> bool {
    id == "arch"@ || id == "artix"@ || id == "curtainos"@ || id == "debian"@ || id
        == "endeavouros"@ || id == "gentoo"@ || id == "linuxlite"@ || id == "ubuntu"@
}

/// An identifier that the registry does not hold falls back, with no error,
/// to the unknown entry: its generic name and its art block.
pub proof fn lemma_unregistered_is_unknown(id: Seq<char>)
    requires
        !is_registered(id),
    ensures
        distro_of(id) == Distro::Unknown,
        display_name_of(distro_of(id)) == "Unknowown QwQ"@,
        art_of(distro_of(id)) == ART_UNKNOWN@,
{
}

/// The stylised name shown for a distribution.
pub open spec fn display_name_of(d: Distro) -> Seq<char> {
    match d {
        Distro::Arch => "Nyarch Linuwux"@,
        Distro::Artix => "Nyartix Linuwux"@,
        Distro::CurtainOs => "Cuwurtain OwOS"@,
        Distro::Debian => "Debinyan Linuwux"@,
        Distro::EndeavourOs => "EndeavOwOurOwOS"@,
        Distro::Gentoo => "Gentowo Linuwux"@,
        Distro::LinuxLite => "Linuwux Lite"@,
        Distro::Ubuntu => "UbuntUwU"@,
        Distro::Unknown => "Unknowown QwQ"@,
    }
}

/// The art block of a distribution, its lines separated by line feeds.
pub open spec fn art_of(d: Distro) -> Seq<char> {
    match d {
        Distro::Arch => ART_ARCH@,
        Distro::Artix => ART_ARTIX@,
        Distro::CurtainOs => ART_CURTAINOS@,
        Distro::Debian => ART_DEBIAN@,
        Distro::EndeavourOs => ART_ENDEAVOUROS@,
        Distro::Gentoo => ART_GENTOO@,
        Distro::LinuxLite => ART_LINUXLITE@,
        Distro::Ubuntu => ART_UBUNTU@,
        Distro::Unknown => ART_UNKNOWN@,
    }
}

pub const ART_ARCH: &'static str = r"        /\
       /  \
      /\   \
     / >w<  \
    /   __   \
   /   |  |  -\
  /_-''    ''-_\";

pub const ART_ARTIX: &'static str = r"        /\
       /  \
      /`'.,\
     / >w< ',
    /      ,`\
   /   ,.'`.  \
  /.,'`     `'.\";

pub const ART_CURTAINOS: &'static str = r"   ___________
  |  _  |  _  |
  | / \ | / \ |
  || ^ ||| ^ ||
  ||  w  |    ||
  |\_/  | \_/ |
  |_____|_____|";

pub const ART_DEBIAN: &'static str = r"     _____
    /  __ \
   |  /  w |
   |  \___-
   -_
     --_";

pub const ART_ENDEAVOUROS: &'static str = r"          /o.
        :/   .\
      //  >w<  \\
    .//         \\
   ///          /|
  '/-----------/
  '--------''";

pub const ART_GENTOO: &'static str = r"    _-----_
   (       \
   \  0    \
    \  >w<  )
    /     _/
   (    _-
   \____-";

pub const ART_LINUXLITE: &'static str = r"       ,
      / \
     /   \
    / >w< \
   /      /
  /    ,`
  `--'`";

pub const ART_UBUNTU: &'static str = r"          _
      ---(_)
  _/  ---  \
 (_) | >w< |
   \  --- _/
      ---(_)";

pub const ART_UNKNOWN: &'static str = r"    _______
   /       \
  |  ?   ?  |
  |    w    |
   \_______/
    |     |
    |_____|";

impl Distro {
    /// The registry entry for the lower-case identifier `id`; an identifier
    /// that the registry does not hold gives `Unknown`.
    pub fn from_id(id: &str) -> (r: Distro)
        ensures
            r == distro_of(id@),
    {
        let v = chars_of(id);
        if same_chars(&v, &chars_of("arch")) {
            Distro::Arch
        } else if same_chars(&v, &chars_of("artix")) {
            Distro::Artix
        } else if same_chars(&v, &chars_of("curtainos")) {
            Distro::CurtainOs
        } else if same_chars(&v, &chars_of("debian")) {
            Distro::Debian
        } else if same_chars(&v, &chars_of("endeavouros")) {
            Distro::EndeavourOs
        } else if same_chars(&v, &chars_of("gentoo")) {
            Distro::Gentoo
        } else if same_chars(&v, &chars_of("linuxlite")) {
            Distro::LinuxLite
        } else if same_chars(&v, &chars_of("ubuntu")) {
            Distro::Ubuntu
        } else {
            Distro::Unknown
        }
    }

    /// The stylised name of the distribution.
    pub fn display_name(&self) -> (r: &'static str)
        ensures
            r@ == display_name_of(*self),
    {
        match self {
            Distro::Arch => "Nyarch Linuwux",
            Distro::Artix => "Nyartix Linuwux",
            Distro::CurtainOs => "Cuwurtain OwOS",
            Distro::Debian => "Debinyan Linuwux",
            Distro::EndeavourOs => "EndeavOwOurOwOS",
            Distro::Gentoo => "Gentowo Linuwux",
            Distro::LinuxLite => "Linuwux Lite",
            Distro::Ubuntu => "UbuntUwU",
            Distro::Unknown => "Unknowown QwQ",
        }
    }

    /// The art block of the distribution.
    pub fn art(&self) -> (r: &'static str)
        ensures
            r@ == art_of(*self),
    {
        match self {
            Distro::Arch => ART_ARCH,
            Distro::Artix => ART_ARTIX,
            Distro::CurtainOs => ART_CURTAINOS,
            Distro::Debian => ART_DEBIAN,
            Distro::EndeavourOs => ART_ENDEAVOUROS,
            Distro::Gentoo => ART_GENTOO,
            Distro::LinuxLite => ART_LINUXLITE,
            Distro::Ubuntu => ART_UBUNTU,
            Distro::Unknown => ART_UNKNOWN,
        }
    }
}

} // verus!
