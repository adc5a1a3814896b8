use humantalk::{
    decimal_string, fatal_exit, format_line, Color, ColorMap, Config, HostInfo, HowToBugReport,
    LlvmVersion, ReportFile, Severity, FATAL_REPORTED, REPORT_FAILED, VERSION,
};

fn host(llvm: Option<LlvmVersion>) -> HostInfo {
    HostInfo {
        family: "unix".to_string(),
        os: "linux".to_string(),
        arch: "x86_64".to_string(),
        rust_version: "rustc 1.76.0".to_string(),
        llvm_version: llvm,
    }
}

fn styled_as(out: &str, text: &str, prefix: &str) -> bool {
    out == text || out == format!("{}{}\x1b[0m", prefix, text)
}

#[test]
fn test_write() {
    let config = Config::custom(
        Config::default().colors,
        HowToBugReport::new(
            "Oh no! Humantalk testing has crashed (don't worry it was manually induced)".to_string(),
            "https://github.com/werdl/humantalk".to_string(),
        ),
    );
    let debug = config.write(Severity::Debug, "hello world!");
    assert!(debug.unwrap().contains("[debug] hello world!"));
    let info = config.write(Severity::Info, "hello information world!");
    assert!(info.unwrap().contains("[info] hello information world!"));
}

#[test]
fn default_colors_per_severity() {
    let c = Config::default();
    assert_eq!(c.get_color(&Severity::Error), Color::Red);
    assert_eq!(c.get_color(&Severity::Warning), Color::Yellow);
    assert_eq!(c.get_color(&Severity::Info), Color::Green);
    assert_eq!(c.get_color(&Severity::Debug), Color::Blue);
    assert!(c.bug_report.is_none());
}

#[test]
fn empty_map_resolves_to_white() {
    let c = Config { colors: ColorMap::new(), bug_report: None, show_debug: true };
    for s in [Severity::Error, Severity::Warning, Severity::Info, Severity::Debug] {
        assert_eq!(c.get_color(&s), Color::White);
    }
}

#[test]
fn partly_filled_map_falls_back_to_white() {
    let mut m = ColorMap::new();
    assert_eq!(m.insert(Severity::Warning, Color::Magenta), None);
    let c = Config { colors: m, bug_report: None, show_debug: true };
    assert_eq!(c.get_color(&Severity::Warning), Color::Magenta);
    assert_eq!(c.get_color(&Severity::Error), Color::White);
}

#[test]
fn color_map_insert_and_remove() {
    let mut m = ColorMap::new();
    assert_eq!(m.insert(Severity::Info, Color::Cyan), None);
    assert_eq!(m.insert(Severity::Info, Color::Red), Some(Color::Cyan));
    assert_eq!(m.get(&Severity::Info), Some(Color::Red));
    assert_eq!(m.remove(&Severity::Info), Some(Color::Red));
    assert_eq!(m.get(&Severity::Info), None);
    assert_eq!(m.remove(&Severity::Info), None);
}

#[test]
fn write_info_line_contains_tag_and_message() {
    let c = Config::default();
    let out = c.write(Severity::Info, "hello").unwrap();
    assert!(out.contains("[info] hello"));
    assert!(styled_as(&out, "[info] hello", "\x1b[38;5;2m"));
}

#[test]
fn debug_suppressed_when_not_shown() {
    let mut c = Config::default();
    c.show_debug = false;
    assert_eq!(c.write(Severity::Debug, "x"), None);
    assert_eq!(c.debug("x"), None);
    assert!(c.info("x").unwrap().contains("[info] x"));
}

#[test]
fn debug_written_when_shown() {
    let c = Config::default();
    let out = c.debug("x").unwrap();
    assert!(out.contains("[debug] x"));
    assert!(styled_as(&out, "[debug] x", "\x1b[38;5;4m"));
}

#[test]
fn shorthands_use_their_severity() {
    let c = Config::default();
    assert!(c.error("e").unwrap().contains("[error] e"));
    assert!(c.warning("w").unwrap().contains("[warning] w"));
    assert!(c.info("i").unwrap().contains("[info] i"));
}

#[test]
fn palette_color_in_written_line() {
    let mut c = Config::default();
    c.set_color(Severity::Error, Color::Color256(208));
    let out = c.error("hot").unwrap();
    assert!(styled_as(&out, "[error] hot", "\x1b[38;5;208m"));
}

#[test]
fn severity_labels() {
    assert_eq!(Severity::Error.to_string(), "error");
    assert_eq!(Severity::Warning.to_string(), "warning");
    assert_eq!(Severity::Info.to_string(), "info");
    assert_eq!(Severity::Debug.to_string(), "debug");
    assert_eq!(format_line(&Severity::Warning, "careful"), "[warning] careful");
    assert_eq!(format_line(&Severity::Info, ""), "[info] ");
}

#[test]
fn palette_indices() {
    assert_eq!(Color::Black.to_color256(), 0);
    assert_eq!(Color::Red.to_color256(), 1);
    assert_eq!(Color::Green.to_color256(), 2);
    assert_eq!(Color::Yellow.to_color256(), 3);
    assert_eq!(Color::Blue.to_color256(), 4);
    assert_eq!(Color::Magenta.to_color256(), 5);
    assert_eq!(Color::Cyan.to_color256(), 6);
    assert_eq!(Color::White.to_color256(), 7);
    for n in 0..=255u8 {
        assert_eq!(Color::Color256(n).to_color256(), n);
    }
}

#[test]
fn decimal_rendering() {
    assert_eq!(decimal_string(0), "0");
    assert_eq!(decimal_string(7), "7");
    assert_eq!(decimal_string(10), "10");
    assert_eq!(decimal_string(1907), "1907");
    assert_eq!(decimal_string(u64::MAX), "18446744073709551615");
}

#[test]
fn machine_info_line() {
    let c = Config::default();
    let h = host(Some(LlvmVersion { major: 17, minor: 0 }));
    let info = c.machine_info(&h);
    assert_eq!(
        info,
        format!(
            "unix-linux-x86_64 - Rust version rustc 1.76.0, running on LLVM 17.0. information stuff generated by humantalk {}",
            VERSION
        )
    );
    assert_eq!(info, c.machine_info(&h));
    assert!(!info.is_empty());
}

#[test]
fn machine_info_unknown_llvm() {
    let c = Config::default();
    let info = c.machine_info(&host(None));
    assert!(info.contains("running on LLVM unknown."));
    assert!(info.ends_with("0.1.1"));
}

#[test]
fn machine_info_nonempty_for_empty_fields() {
    let c = Config::default();
    let h = HostInfo {
        family: String::new(),
        os: String::new(),
        arch: String::new(),
        rust_version: String::new(),
        llvm_version: None,
    };
    assert!(!c.machine_info(&h).is_empty());
}

#[test]
fn fatal_report_with_descriptor() {
    let c = Config::custom(
        Config::default().colors,
        HowToBugReport::new("contact us".to_string(), "http://example.test".to_string()),
    );
    let h = host(None);
    let r = c.fatal_error("boom", &h);
    assert_eq!(
        r.report,
        "[FATAL] boom\ncontact us. Please submit a report to http://example.test, along with a copy of this error message, which can also be found in crash_report.log as plaintext."
    );
    let screen = r.screen_report();
    for part in ["[FATAL] boom", "contact us", "http://example.test"] {
        assert!(screen.contains(part));
    }
    assert!(styled_as(&screen, &format!("{}\n\n", r.report), "\x1b[31m"));
    let platform = r.screen_platform();
    assert!(platform.contains("[PLATFORM INFO]\n"));
    assert!(styled_as(&platform, &r.platform, "\x1b[36m"));
    let file = r.file_contents();
    for part in ["[FATAL] boom", "contact us", "http://example.test", "[PLATFORM INFO]"] {
        assert!(file.contains(part));
    }
    assert_eq!(file, format!("{}\n[PLATFORM INFO]\n{}", r.report, c.machine_info(&h)));
}

#[test]
fn fatal_report_without_descriptor() {
    let c = Config::default();
    let r = c.fatal_error("boom", &host(None));
    assert!(r.report.starts_with("[FATAL] boom\nOh no! The program has crashed. Please submit a report to the appropriate place,"));
}

#[test]
fn fatal_exit_codes() {
    let ok = fatal_exit(ReportFile::Written);
    assert_eq!(ok.code, 3);
    assert_eq!(ok.code, FATAL_REPORTED);
    assert!(ok.notice.is_none());
    let nc = fatal_exit(ReportFile::NotCreated);
    assert_ne!(nc.code, 3);
    assert_eq!(nc.code, REPORT_FAILED);
    assert_eq!(
        nc.notice.unwrap(),
        "Failed to create debug file - just copy the information displayed above."
    );
    let nw = fatal_exit(ReportFile::NotWritten);
    assert_ne!(nw.code, 3);
    assert_eq!(
        nw.notice.unwrap(),
        "Failed to write to debug file - just copy the information displayed above."
    );
}

#[test]
fn set_then_get_round_trip() {
    let mut c = Config::default();
    c.set_color(Severity::Info, Color::Color256(99));
    assert_eq!(c.get_color(&Severity::Info), Color::Color256(99));
    assert_eq!(c.get_color(&Severity::Error), Color::Red);
    assert_eq!(c.get_color(&Severity::Warning), Color::Yellow);
    assert_eq!(c.get_color(&Severity::Debug), Color::Blue);
    c.set_color(Severity::Info, Color::Black);
    assert_eq!(c.get_color(&Severity::Info), Color::Black);
}
