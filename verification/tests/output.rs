use azalea_viaversion::output::{read_line, strip_colour_codes, trim, Severity};

fn strip(line: &str) -> String {
    let chars: Vec<char> = line.chars().collect();
    strip_colour_codes(&chars).into_iter().collect()
}

#[test]
fn strip_removes_colour_codes() {
    assert_eq!(strip("\u{1b}[32mgreen\u{1b}[0m"), "green");
    assert_eq!(strip("a\u{1b}[1;31mb\u{1b}[mc"), "abc");
    assert_eq!(strip("\u{1b}[;;;m"), "");
}

#[test]
fn strip_keeps_what_is_no_colour_code() {
    assert_eq!(strip("plain"), "plain");
    assert_eq!(strip(""), "");
    assert_eq!(strip("\u{1b}[31"), "\u{1b}[31");
    assert_eq!(strip("\u{1b}[3xm"), "\u{1b}[3xm");
    assert_eq!(strip("\u{1b}"), "\u{1b}");
    assert_eq!(strip("\u{1b}["), "\u{1b}[");
    assert_eq!(strip("\u{1b}m"), "\u{1b}m");
    assert_eq!(strip("[0m"), "[0m");
    assert_eq!(strip("\u{1b}[2J"), "\u{1b}[2J");
}

#[test]
fn strip_goes_on_behind_a_code() {
    assert_eq!(strip("\u{1b}[0m\u{1b}[1mx"), "x");
    assert_eq!(strip("\u{1b}\u{1b}[0mx"), "\u{1b}x");
    assert_eq!(strip("\u{1b}[\u{1b}[0mm"), "\u{1b}[m");
}

#[test]
fn read_plain_line() {
    let report = read_line("[12:00:00] [main/INFO] Loading");
    assert_eq!(report.text, "[12:00:00] [main/INFO] Loading");
    assert_eq!(report.severity, Severity::Trace);
    assert!(!report.ready);
}

#[test]
fn read_warning() {
    let report = read_line("\u{1b}[33m[12:00:00] [main/WARN] Outdated\u{1b}[0m");
    assert_eq!(report.text, "[12:00:00] [main/WARN] Outdated");
    assert_eq!(report.severity, Severity::Warn);
    assert!(!report.ready);
}

#[test]
fn read_ready_line() {
    let report = read_line("[12:00:01] [main/INFO] Finished mapping loading");
    assert_eq!(report.severity, Severity::Trace);
    assert!(report.ready);
}

#[test]
fn read_marker_split_by_a_colour_code() {
    let report = read_line("Finished \u{1b}[1mmapping\u{1b}[0m loading");
    assert_eq!(report.text, "Finished mapping loading");
    assert!(report.ready);
}

#[test]
fn read_near_misses() {
    assert!(!read_line("Finished mapping loadin").ready);
    assert!(!read_line("finished mapping loading").ready);
    assert!(!read_line("Binding proxy server to 127.0.0.1:25568").ready);
    assert_eq!(read_line("/WARN").severity, Severity::Trace);
    assert_eq!(read_line("WARN]").severity, Severity::Trace);
    assert_eq!(read_line("").severity, Severity::Trace);
}

#[test]
fn read_warning_that_is_ready() {
    let report = read_line("[x/WARN] Finished mapping loading late");
    assert_eq!(report.severity, Severity::Warn);
    assert!(report.ready);
}

fn trim_text(line: &str) -> String {
    let chars: Vec<char> = line.chars().collect();
    trim(&chars).into_iter().collect()
}

#[test]
fn trim_removes_white_space_at_both_ends() {
    assert_eq!(trim_text("  a b \t\r\n"), "a b");
    assert_eq!(trim_text("\u{3000}x\u{a0}"), "x");
    assert_eq!(trim_text("x"), "x");
    assert_eq!(trim_text(" x"), "x");
    assert_eq!(trim_text("x "), "x");
}

#[test]
fn trim_of_white_space_is_empty() {
    assert_eq!(trim_text(""), "");
    assert_eq!(trim_text(" "), "");
    assert_eq!(trim_text(" \n\t "), "");
}

#[test]
fn read_trims_before_it_strips() {
    let report = read_line("  \u{1b}[0m text \u{1b}[0m\r\n");
    assert_eq!(report.text, " text ");
    let report = read_line("[main/INFO] Finished mapping loading\n");
    assert_eq!(report.text, "[main/INFO] Finished mapping loading");
    assert!(report.ready);
}
