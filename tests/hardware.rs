use owofetch::hardware::{
    cpu_description, format_uptime, frequency_khz, ghz, parse_meminfo, parse_uptime, probe_hw,
    HwError, MemError, MemInfo,
};

const MEMINFO: &str = "MemTotal:       16000000 kB\nMemFree:         1000000 kB\nMemAvailable:    8000000 kB\nBuffers:          100000 kB\n";

#[test]
fn memory_from_total_and_available() {
    let m = parse_meminfo(MEMINFO).unwrap();
    assert_eq!(m, MemInfo { total_mib: 16000000 / 1024, used_mib: (16000000 - 8000000) / 1024 });
    assert_eq!(m.total_mib, 15625);
    assert_eq!(m.used_mib, 7812);
    assert!(m.used_mib <= m.total_mib);
}

#[test]
fn memory_keys_in_any_order() {
    let m = parse_meminfo("MemAvailable: 2048 kB\nMemTotal: 4096 kB\n").unwrap();
    assert_eq!(m, MemInfo { total_mib: 4, used_mib: 2 });
}

#[test]
fn memory_errors() {
    assert_eq!(parse_meminfo("MemAvailable: 2048 kB\n"), Err(MemError::MissingTotal));
    assert_eq!(parse_meminfo("MemTotal: 2048 kB\n"), Err(MemError::MissingAvailable));
    assert_eq!(parse_meminfo(""), Err(MemError::MissingTotal));
    assert_eq!(parse_meminfo("MemTotal: 1 kB\nMemAvailable: 2 kB\n"), Err(MemError::AvailableExceedsTotal));
    assert_eq!(parse_meminfo("MemTotal: lots kB\nMemAvailable: 2 kB\n"), Err(MemError::MissingTotal));
}

#[test]
fn uptime_of_3661_seconds() {
    assert_eq!(format_uptime(3661), "1 Hours, 1 Minutes");
}

#[test]
fn uptime_formatting_edges() {
    assert_eq!(format_uptime(0), "0 Hours, 0 Minutes");
    assert_eq!(format_uptime(59 * 60 + 59), "0 Hours, 59 Minutes");
    assert_eq!(format_uptime(3600), "1 Hours, 0 Minutes");
    assert_eq!(format_uptime(2 * 86400 + 7199), "49 Hours, 59 Minutes");
}

#[test]
fn uptime_file_is_rounded_to_nearest_second() {
    assert_eq!(parse_uptime("3661.49 12000.00\n"), Some(3661));
    assert_eq!(parse_uptime("3660.50 12000.00\n"), Some(3661));
    assert_eq!(parse_uptime("42\n"), Some(42));
    assert_eq!(parse_uptime("7.\n"), Some(7));
    assert_eq!(parse_uptime("abc 1.0\n"), None);
    assert_eq!(parse_uptime(".5 1\n"), None);
    assert_eq!(parse_uptime("1.2x 1\n"), None);
    assert_eq!(parse_uptime(""), None);
}

#[test]
fn frequency_of_2400000_khz() {
    assert_eq!(frequency_khz(Some("2400000\n")), 2400000);
    assert_eq!(ghz(frequency_khz(Some("2400000\n"))), "2.40");
}

#[test]
fn frequency_fallbacks_and_rounding() {
    assert_eq!(frequency_khz(None), 0);
    assert_eq!(frequency_khz(Some("fast\n")), 0);
    assert_eq!(ghz(0), "0.00");
    assert_eq!(ghz(3504999), "3.50");
    assert_eq!(ghz(3505000), "3.51");
    assert_eq!(ghz(800000), "0.80");
    assert_eq!(ghz(12345678), "12.35");
}

const CPUINFO_AT: &str = "processor\t: 0\nvendor_id\t: GenuineIntel\nmodel name\t: Intel(R) Core(TM) i7-4770 CPU @ 3.40GHz\nsiblings\t: 8\n\nprocessor\t: 1\nmodel name\t: Other\n";

const CPUINFO_PLAIN: &str = "processor\t: 0\nmodel name\t: AMD Ryzen 7 5800X 8-Core Processor\nsiblings\t: 16\ncpu cores\t: 8\n\n";

#[test]
fn cpu_with_embedded_frequency() {
    assert_eq!(
        cpu_description(CPUINFO_AT, Some("9999999")),
        "Intel(R) Core(TM) i7-4770 CPU (8) @ 3.40GHz"
    );
}

#[test]
fn cpu_with_frequency_file() {
    assert_eq!(
        cpu_description(CPUINFO_PLAIN, Some("2400000\n")),
        "AMD Ryzen 7 5800X 8-Core Processor (16) @ 2.40GHz"
    );
    assert_eq!(
        cpu_description(CPUINFO_PLAIN, None),
        "AMD Ryzen 7 5800X 8-Core Processor (16) @ 0.00GHz"
    );
}

#[test]
fn cpu_fallbacks() {
    assert_eq!(cpu_description("", None), "unknown");
    assert_eq!(cpu_description("processor\t: 0\n\nmodel name\t: Late\n", None), "unknown");
    assert_eq!(cpu_description("model name\t: Solo\n", Some("1000000")), "Solo (1) @ 1.00GHz");
    assert_eq!(cpu_description("model name\t:\nsiblings\t: 4\n", None), "unknown");
}

#[test]
fn hardware_probe_ties_the_pieces() {
    let gpus = vec![String::from("GPU one"), String::from("GPU two")];
    let hw = probe_hw(CPUINFO_PLAIN, Some("2400000"), "3661.2 9.0\n", MEMINFO, gpus.clone()).unwrap();
    assert_eq!(hw.cpu_description, "AMD Ryzen 7 5800X 8-Core Processor (16) @ 2.40GHz");
    assert_eq!(hw.uptime_text, "1 Hours, 1 Minutes");
    assert_eq!(hw.mem_total_mib, 15625);
    assert_eq!(hw.mem_used_mib, 7812);
    assert_eq!(hw.gpu_descriptions, gpus);
    assert!(matches!(
        probe_hw(CPUINFO_PLAIN, None, "3661.2 9.0\n", "MemTotal: 1 kB\n", vec![]),
        Err(HwError::Memory(MemError::MissingAvailable))
    ));
    assert!(matches!(probe_hw(CPUINFO_PLAIN, None, "soon", MEMINFO, vec![]), Err(HwError::Uptime)));
}
