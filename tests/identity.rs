use owofetch::distro::{Distro, ART_UNKNOWN};
use owofetch::probe::{distro_id, kernel_type, parse_identity, probe_os, single_line, user_name};

const OS_RELEASE: &str = "NAME=\"Arch Linux\"\nPRETTY_NAME=\"Arch Linux\"\nID=\"arch\"\nBUILD_ID=rolling\n";

#[test]
fn arch_identity_line_gives_arch_and_its_name() {
    assert_eq!(parse_identity("ID=\"arch\"", "ID"), Some(String::from("arch")));
    let id = distro_id(Some(OS_RELEASE), None);
    assert_eq!(id, "arch");
    assert_eq!(Distro::from_id(&id), Distro::Arch);
    assert_eq!(Distro::from_id(&id).display_name(), "Nyarch Linuwux");
    assert_ne!(Distro::from_id(&id).display_name(), "Unknowown QwQ");
}

#[test]
fn identity_takes_first_match_unquoted_and_lowercased() {
    let content = "ID_LIKE=debian\nID='Ubuntu'\nID=debian\n";
    assert_eq!(parse_identity(content, "ID"), Some(String::from("ubuntu")));
    assert_eq!(parse_identity("  ID = Gentoo  \n", "ID"), Some(String::from("gentoo")));
    assert_eq!(parse_identity("NAME=x\n", "ID"), None);
    assert_eq!(parse_identity("", "ID"), None);
}

#[test]
fn identity_falls_back_to_secondary_then_unknown() {
    let lsb = "DISTRIB_ID=Ubuntu\nDISTRIB_RELEASE=22.04\n";
    assert_eq!(distro_id(None, Some(lsb)), "ubuntu");
    assert_eq!(distro_id(Some("NAME=foo\n"), Some(lsb)), "ubuntu");
    assert_eq!(distro_id(Some(OS_RELEASE), Some(lsb)), "arch");
    assert_eq!(distro_id(None, None), "unknown");
    assert_eq!(distro_id(Some("NAME=foo\n"), Some("X=y")), "unknown");
}

#[test]
fn unrecognized_id_gives_unknown_entry() {
    let d = Distro::from_id("plan9");
    assert_eq!(d, Distro::Unknown);
    assert_eq!(d.display_name(), "Unknowown QwQ");
    assert_eq!(d.art(), ART_UNKNOWN);
    assert_eq!(Distro::from_id("unknown"), Distro::Unknown);
    assert_eq!(Distro::from_id("Arch"), Distro::Unknown);
}

#[test]
fn registry_names() {
    assert_eq!(Distro::from_id("artix").display_name(), "Nyartix Linuwux");
    assert_eq!(Distro::from_id("curtainos").display_name(), "Cuwurtain OwOS");
    assert_eq!(Distro::from_id("debian").display_name(), "Debinyan Linuwux");
    assert_eq!(Distro::from_id("endeavouros").display_name(), "EndeavOwOurOwOS");
    assert_eq!(Distro::from_id("gentoo").display_name(), "Gentowo Linuwux");
    assert_eq!(Distro::from_id("linuxlite").display_name(), "Linuwux Lite");
    assert_eq!(Distro::from_id("ubuntu").display_name(), "UbuntUwU");
}

#[test]
fn kernel_type_is_classified() {
    assert_eq!(kernel_type("Linux\n"), "Linux");
    assert_eq!(kernel_type("FreeBSD"), "BSD");
    assert_eq!(kernel_type("OpenBSD\n"), "BSD");
    assert_eq!(kernel_type("Darwin\n"), "");
    assert_eq!(kernel_type(""), "");
}

#[test]
fn single_line_files_and_user() {
    assert_eq!(single_line("6.1.0-13-amd64\n"), "6.1.0-13-amd64");
    assert_eq!(single_line("  box \r\n"), "box");
    assert_eq!(user_name(Some("alice")), "alice");
    assert_eq!(user_name(Some("")), "unknown");
    assert_eq!(user_name(None), "unknown");
}

#[test]
fn os_probe_collects_every_field() {
    let os = probe_os(Some(OS_RELEASE), None, "Linux\n", "6.6.1-arch1-1\n", "kitten\n", Some("nya"));
    assert_eq!(os.id, "arch");
    assert_eq!(os.display_name, "Nyarch Linuwux");
    assert_eq!(os.kernel_type, "Linux");
    assert_eq!(os.kernel_version, "6.6.1-arch1-1");
    assert_eq!(os.hostname, "kitten");
    assert_eq!(os.user, "nya");
    assert_eq!(os.art_line_count, 10);
    let other = probe_os(Some("ID=haiku\n"), None, "Haiku", "1\n", "h", None);
    assert_eq!(other.id, "haiku");
    assert_eq!(other.display_name, "Unknowown QwQ");
    assert_eq!(other.kernel_type, "");
    assert_eq!(other.user, "unknown");
}
