use vstd::prelude::*;
use crate::case::{lowered, to_lower};
use crate::distro::{display_name_of, distro_of, Distro};
use crate::text::{
    chars_of, field, find_field, lines, opt_view, same_chars, slice, split_lines, string_of, trim, trimmed,
};

verus! {

// ---------------------------------------------------------------------------
// Distribution identity
// ---------------------------------------------------------------------------

pub open spec fn is_quote(c: char) -> bool {
    c == '"' || c == '\''
}

/// `s` without one pair of matching quotes around it.
pub open spec fn strip_quotes(s: Seq<char>) -> Seq<char> {
    if s.len() >= 2 && is_quote(s[0]) && s.last() == s[0] {
        s.subrange(1, s.len() - 1)
    } else {
        s
    }
}

/// The identifier that an identity file in `KEY=VALUE` lines gives under
/// `key`: the first such line's value, unquoted and in lower case.
pub open spec fn id_in(content: Seq<char>, key: Seq<char>) -> Option<Seq<char>> {
    match field(lines(content), '=', key) {
        Some(v) => Some(to_lower(strip_quotes(v))),
        None => None,
    }
}

/// The identifier read from the primary identity file (key `ID`), else from
/// the secondary one (key `DISTRIB_ID`), else `unknown`.
pub open spec fn resolved_id(primary: Option<Seq<char>>, secondary: Option<Seq<char>>) -> Seq<char> {
    let from_primary = match primary {
        Some(p) => id_in(p, "ID"@),
        None => None,
    };
    let from_secondary = match secondary {
        Some(s) => id_in(s, "DISTRIB_ID"@),
        None => None,
    };
    match from_primary {
        Some(id) => id,
        None => match from_secondary {
            Some(id) => id,
            None => "unknown"@,
        },
    }
}

pub open spec fn opt_string_view(o: Option<String>) -> Option<Seq<char>> {
    match o {
        Some(s) => Some(s@),
        None => None,
    }
}

fn unquoted(v: &Vec<char>) -> (r: Vec<char>)
    ensures
        r@ == strip_quotes(v@),
{
    let n = v.len();
    if n >= 2 && (v[0] == '"' || v[0] == '\'') && v[n - 1] == v[0] {
        slice(v, 1, n - 1)
    } else {
        slice(v, 0, n)
    }
}

/// The identifier under `key` in `content`, made of `KEY=VALUE` lines.
pub fn parse_identity(content: &str, key: &str) -> (r: Option<String>)
    ensures
        opt_string_view(r) == id_in(content@, key@),
{
    let ls = split_lines(&chars_of(content));
    match find_field(&ls, '=', &chars_of(key)) {
        Some(v) => {
            let id = lowered(&unquoted(&v));
            Some(string_of(&id))
        },
        None => None,
    }
}

/// The distribution identifier of the host, from the contents of the primary
/// identity file and of the secondary one, each `None` where it could not be
/// read.
pub fn distro_id(primary: Option<&str>, secondary: Option<&str>) -> (r: String)
    ensures
        r@ == resolved_id(opt_view(primary), opt_view(secondary)),
{
    let from_primary = match primary {
        Some(p) => parse_identity(p, "ID"),
        None => None,
    };
    match from_primary {
        Some(id) => id,
        None => {
            let from_secondary = match secondary {
                Some(s) => parse_identity(s, "DISTRIB_ID"),
                None => None,
            };
            match from_secondary {
                Some(id) => id,
                None => String::from_str("unknown"),
            }
        },
    }
}

// ---------------------------------------------------------------------------
// Kernel, host and user
// ---------------------------------------------------------------------------

/// The kernel family named by the contents of the kernel type file:
/// `Linux`, `BSD`, or nothing.
pub open spec fn kernel_type_of(ostype: Seq<char>) -> Seq<char> {
    let t = trim(ostype);
    if t == "Linux"@ {
        "Linux"@
    } else if t.len() >= 3 && t.skip(t.len() - 3) == "BSD"@ {
        "BSD"@
    } else {
        seq![]
    }
}

/// The user name, or `unknown` where it is unset or empty.
pub open spec fn user_of(user: Option<Seq<char>>) -> Seq<char> {
    match user {
        Some(u) => if u.len() > 0 {
            u
        } else {
            "unknown"@
        },
        None => "unknown"@,
    }
}

/// The kernel family of the kernel type file's contents.
pub fn kernel_type(ostype: &str) -> (r: String)
    ensures
        r@ == kernel_type_of(ostype@),
{
    let t = trimmed(&chars_of(ostype));
    if same_chars(&t, &chars_of("Linux")) {
        return String::from_str("Linux");
    }
    if t.len() >= 3 {
        let tail = slice(&t, t.len() - 3, t.len());
        if same_chars(&tail, &chars_of("BSD")) {
            return String::from_str("BSD");
        }
    }
    String::new()
}

/// The contents of a single-line file without the white space around it.
pub fn single_line(content: &str) -> (r: String)
    ensures
        r@ == trim(content@),
{
    string_of(&trimmed(&chars_of(content)))
}

/// The user name from the environment, or `unknown`.
pub fn user_name(user: Option<&str>) -> (r: String)
    ensures
        r@ == user_of(opt_view(user)),
{
    match user {
        Some(u) => if u.unicode_len() > 0 {
            String::from_str(u)
        } else {
            String::from_str("unknown")
        },
        None => String::from_str("unknown"),
    }
}

/// The number of art lines assumed before any art has been drawn.
pub const DEFAULT_ART_LINES: usize = 10;

/// Facts about the operating system.
#[derive(Clone, Debug)]
pub struct OsInfo {
    pub id: String,
    pub display_name: String,
    pub kernel_type: String,
    pub kernel_version: String,
    pub hostname: String,
    pub user: String,
    pub art_line_count: usize,
}

/// The host's operating system facts, from the contents of the files they
/// are read from (`None` for an identity file that could not be read) and
/// the user variable of the environment.
pub fn probe_os(
    os_release: Option<&str>,
    lsb_release: Option<&str>,
    ostype: &str,
    osrelease: &str,
    hostname: &str,
    user: Option<&str>,
) -> (r: OsInfo)
    ensures
        r.id@ == resolved_id(opt_view(os_release), opt_view(lsb_release)),
        r.display_name@ == display_name_of(distro_of(r.id@)),
        r.kernel_type@ == kernel_type_of(ostype@),
        r.kernel_version@ == trim(osrelease@),
        r.hostname@ == trim(hostname@),
        r.user@ == user_of(opt_view(user)),
        r.art_line_count == DEFAULT_ART_LINES,
{
    let id = distro_id(os_release, lsb_release);
    let d = Distro::from_id(id.as_str());
    OsInfo {
        display_name: String::from_str(d.display_name()),
        id,
        kernel_type: kernel_type(ostype),
        kernel_version: single_line(osrelease),
        hostname: single_line(hostname),
        user: user_name(user),
        art_line_count: DEFAULT_ART_LINES,
    }
}

} // verus!
