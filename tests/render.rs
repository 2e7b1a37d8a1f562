use owofetch::cli::{parse_args, Command, VERSION};
use owofetch::distro::{Distro, ART_UNKNOWN};
use owofetch::gpu::{gpu_description, gpu_descriptions, parse_hex_id, vendor_name, PciDevice};
use owofetch::hardware::HwInfo;
use owofetch::layout::{
    memory_text, override_distro, render, render_art, render_info, to_terminal, Directive,
    INFO_COLUMN,
};
use owofetch::probe::{probe_os, OsInfo};
use owofetch::style::{label_text, unescape_separator, CaseStyle, Configuration, Label};

fn os(id: &str) -> OsInfo {
    probe_os(Some(&format!("ID={}\n", id)), None, "Linux\n", "6.6.1\n", "host\n", Some("me"))
}

fn hw(gpus: Vec<String>) -> HwInfo {
    HwInfo {
        gpu_descriptions: gpus,
        cpu_description: String::from("Some CPU (4) @ 1.00GHz"),
        uptime_text: String::from("1 Hours, 1 Minutes"),
        mem_total_mib: 15625,
        mem_used_mib: 7812,
    }
}

fn texts(ds: &[Directive]) -> Vec<String> {
    ds.iter()
        .filter_map(|d| match d {
            Directive::Text(t) => Some(t.clone()),
            _ => None,
        })
        .collect()
}

fn gpu_lines(ds: &[Directive], cfg: &Configuration) -> Vec<String> {
    let label = label_text(Label::Gpu, cfg.case_style);
    let t = texts(ds);
    let mut out = Vec::new();
    for i in 0..t.len() {
        if t[i] == label {
            out.push(t[i + 4].clone());
        }
    }
    out
}

#[test]
fn label_case_styles() {
    assert_eq!(label_text(Label::Os, CaseStyle::Uppercase), "OWOS");
    assert_eq!(label_text(Label::Os, CaseStyle::Lowercase), "owos");
    assert_eq!(label_text(Label::Os, CaseStyle::Mixed), "OwOS");
    for l in [Label::Os, Label::Kernel, Label::Uptime, Label::Cpu, Label::Gpu, Label::Memory] {
        let m = label_text(l, CaseStyle::Mixed);
        let u = label_text(l, CaseStyle::Uppercase);
        let lo = label_text(l, CaseStyle::Lowercase);
        assert_eq!(u, m.to_uppercase());
        assert_eq!(lo, m.to_lowercase());
        assert_eq!(u.to_lowercase(), lo);
    }
}

#[test]
fn separator_escapes_and_defaults() {
    assert_eq!(unescape_separator("\\t->\\t"), "\t->\t");
    assert_eq!(unescape_separator("a\\b"), "a\\b");
    assert_eq!(unescape_separator("\\"), "\\");
    let cfg = Configuration::default();
    assert_eq!(cfg.separator, "->");
    assert_eq!((cfg.key_color, cfg.value_color, cfg.art_color), (213, 255, 213));
    assert_eq!(cfg.case_style, CaseStyle::Mixed);
    let c = Configuration::new("\\t|", 1, 2, 3, CaseStyle::Lowercase);
    assert_eq!(c.separator, "\t|");
    assert_eq!((c.key_color, c.value_color, c.art_color), (1, 2, 3));
}

#[test]
fn no_gpu_means_no_gpu_line() {
    let cfg = Configuration::default();
    let ds = render_info(&os("arch"), &hw(vec![]), &cfg);
    assert!(gpu_lines(&ds, &cfg).is_empty());
    assert_eq!(ds.iter().filter(|d| **d == Directive::NewLine).count(), 5 + 1);
}

#[test]
fn one_gpu_line_per_device_in_order() {
    let cfg = Configuration::default();
    let gpus = vec![String::from("First GPU"), String::from("Second GPU"), String::from("Third GPU")];
    let ds = render_info(&os("arch"), &hw(gpus.clone()), &cfg);
    assert_eq!(gpu_lines(&ds, &cfg), gpus);
    assert_eq!(ds.iter().filter(|d| **d == Directive::NewLine).count(), 8 + 1);
}

#[test]
fn info_block_layout() {
    let cfg = Configuration::default();
    let mut o = os("arch");
    o.art_line_count = 7;
    let ds = render_info(&o, &hw(vec![]), &cfg);
    assert_eq!(ds[0], Directive::CursorUp(8));
    assert_eq!(
        ds[1..11].to_vec(),
        vec![
            Directive::CursorRight(INFO_COLUMN),
            Directive::Color(213),
            Directive::Text(String::from("OwOS")),
            Directive::Text(String::from("     ")),
            Directive::Color(255),
            Directive::Text(String::from("->")),
            Directive::Text(String::from(" ")),
            Directive::Text(String::from("Nyarch Linuwux")),
            Directive::Reset,
            Directive::NewLine,
        ]
    );
    let t = texts(&ds);
    assert!(t.contains(&String::from("Linux 6.6.1")));
    assert!(t.contains(&String::from("7812MiB/15625MiB")));
    assert_eq!(ds[ds.len() - 1], Directive::NewLine);
    assert_eq!(memory_text(7812, 15625), "7812MiB/15625MiB");
}

#[test]
fn unknown_distro_renders_unknown_art() {
    let mut o = os("plan9");
    assert_eq!(o.display_name, "Unknowown QwQ");
    let ds = render_art(&mut o, 105);
    let lines: Vec<&str> = ART_UNKNOWN.lines().collect();
    assert_eq!(o.art_line_count, lines.len());
    assert_eq!(texts(&ds), lines.iter().map(|l| l.to_string()).collect::<Vec<_>>());
    assert_eq!(ds[0], Directive::Color(105));
    assert_eq!(ds.len(), 4 * lines.len() + 1);
}

#[test]
fn art_line_count_is_recorded() {
    let mut o = os("debian");
    assert_eq!(o.art_line_count, 10);
    let ds = render_art(&mut o, 1);
    let n = Distro::Debian.art().lines().count();
    assert_eq!(o.art_line_count, n);
    assert_eq!(ds.iter().filter(|d| **d == Directive::Reset).count(), n);
}

#[test]
fn override_changes_name_and_art_only() {
    let mut o = os("arch");
    override_distro(&mut o, "Ubuntu");
    assert_eq!(o.id, "ubuntu");
    assert_eq!(o.display_name, "UbuntUwU");
    assert_eq!(o.kernel_version, "6.6.1");
    let ds = render_art(&mut o, 1);
    assert_eq!(texts(&ds).len(), Distro::Ubuntu.art().lines().count());
}

#[test]
fn whole_screen_rewinds_over_art() {
    let cfg = Configuration::default();
    let mut o = os("gentoo");
    let ds = render(&mut o, &hw(vec![String::from("G")]), &cfg);
    let n = Distro::Gentoo.art().lines().count();
    assert_eq!(o.art_line_count, n);
    assert_eq!(ds[4 * n + 1], Directive::CursorUp(n + 1));
}

#[test]
fn terminal_text() {
    let ds = vec![
        Directive::CursorUp(11),
        Directive::CursorRight(19),
        Directive::Color(213),
        Directive::Text(String::from("x")),
        Directive::Reset,
        Directive::NewLine,
    ];
    assert_eq!(to_terminal(&ds), "\x1b[11F\x1b[19C\x1b[38;5;213mx\x1b[0m\n");
    assert_eq!(to_terminal(&vec![]), "");
}

#[test]
fn gpu_lookup() {
    assert_eq!(parse_hex_id("0x10de\n"), Some(0x10de));
    assert_eq!(parse_hex_id("0x030000\n"), Some(0x030000));
    assert_eq!(parse_hex_id("FFFF"), Some(0xffff));
    assert_eq!(parse_hex_id("0x"), None);
    assert_eq!(parse_hex_id("0xzz"), None);
    assert_eq!(parse_hex_id("0x100000000"), None);
    assert_eq!(vendor_name(0x10de), Some("NVIDIA Corporation"));
    assert_eq!(vendor_name(0x0001), None);
    let nv = PciDevice { class: 0x030000, vendor: 0x10de, device: 0x2484 };
    assert_eq!(gpu_description(&nv), "NVIDIA Corporation Device 2484");
    let odd = PciDevice { class: 0x030200, vendor: 0x1234, device: 0x00af };
    assert_eq!(gpu_description(&odd), "Vendor 1234 Device 00af");
    let nic = PciDevice { class: 0x020000, vendor: 0x8086, device: 0x15b8 };
    assert_eq!(
        gpu_descriptions(&vec![nv, nic, odd]),
        vec![String::from("NVIDIA Corporation Device 2484"), String::from("Vendor 1234 Device 00af")]
    );
    assert!(gpu_descriptions(&vec![nic]).is_empty());
}

#[test]
fn command_line() {
    let args = |v: &[&str]| v.iter().map(|s| s.to_string()).collect::<Vec<String>>();
    assert_eq!(parse_args(&args(&[])), Command::Run(None));
    assert_eq!(parse_args(&args(&["--help"])), Command::Help);
    assert_eq!(parse_args(&args(&["--version"])), Command::Version);
    assert_eq!(parse_args(&args(&["--distro=arch"])), Command::Run(Some(String::from("arch"))));
    assert_eq!(parse_args(&args(&["-d=debian", "-d=gentoo"])), Command::Run(Some(String::from("gentoo"))));
    assert_eq!(parse_args(&args(&["-d=debian", "--version"])), Command::Version);
    assert_eq!(parse_args(&args(&["--bogus", "--help"])), Command::Invalid(String::from("--bogus")));
    assert_eq!(VERSION, "0.0.1-dev");
}
