use rust_recon::monitor::Monitor;
use rust_recon::monitor::split_lines;

fn drain(lines: &[&str], success: bool) -> rust_recon::monitor::CommandResult {
    let mut m = Monitor::new();
    m.mark_launched();
    let mut t: u64 = 0;
    for line in lines {
        m.observe_line(line, t);
        t += 1;
    }
    m.end_of_stream();
    m.set_exit(success);
    m.result()
}

#[test]
fn scenario_progress_sequence() {
    let mut m = Monitor::new();
    m.mark_launched();
    let mut seen: Vec<(String, Option<u32>)> = Vec::new();
    let lines = [
        "Initiating SYN Stealth Scan at 10:00",
        "About 42% done",
        "Initiating Service scan",
        "About 87% done",
    ];
    for line in &lines {
        if let Some(u) = m.observe_line(line, 0) {
            seen.push((u.phase, u.percent));
        }
    }
    m.end_of_stream();
    m.set_exit(true);
    let expected = [
        ("SYN Stealth Scanning", None),
        ("SYN Stealth Scanning", Some(42)),
        ("Service Version Detection", Some(42)),
        ("Service Version Detection", Some(87)),
    ];
    assert_eq!(seen.len(), expected.len());
    for (got, want) in seen.iter().zip(expected.iter()) {
        assert_eq!(got.0, want.0);
        assert_eq!(got.1, want.1);
    }
    let result = m.result();
    assert!(result.success);
    assert_eq!(result.lines, lines);
}

#[test]
fn scenario_failure_without_progress_lines() {
    let lines = ["QUITTING!", "could not resolve target"];
    let result = drain(&lines, false);
    assert!(!result.success);
    assert_eq!(result.lines, lines);
}

#[test]
fn scenario_failure_with_empty_output() {
    let result = drain(&[], false);
    assert!(!result.success);
    assert!(result.lines.is_empty());
}

#[test]
fn replaying_the_same_lines_gives_the_same_log() {
    let lines: Vec<String> = [
        "Initiating Host discovery",
        "About 10% done",
        "weird line",
        "About 90% done",
    ]
    .iter()
    .map(|l| l.to_string())
    .collect();
    let mut first = Monitor::new();
    first.mark_launched();
    first.record_all(&lines, 0);
    first.end_of_stream();
    first.set_exit(true);
    let a = first.result();
    let mut second = Monitor::new();
    second.mark_launched();
    second.record_all(&lines, 0);
    second.end_of_stream();
    second.set_exit(true);
    let b = second.result();
    assert_eq!(a.lines, b.lines);
    assert_eq!(a.lines, lines);
}

#[test]
fn captured_output_round_trips_through_split() {
    let lines = ["first", "", "third with spaces", "About 50% done"];
    let result = drain(&lines, true);
    let captured = result.captured_stdout();
    assert_eq!(captured, "first\n\nthird with spaces\nAbout 50% done\n");
    let back = split_lines(&captured);
    assert_eq!(back, lines);
}

#[test]
fn empty_log_round_trips() {
    let result = drain(&[], true);
    let captured = result.captured_stdout();
    assert_eq!(captured, "");
    let back = split_lines(&captured);
    assert!(back.is_empty());
}

#[test]
fn split_without_trailing_newline() {
    let back = split_lines("a\nb");
    assert_eq!(back, ["a", "b"]);
}

#[test]
fn exit_status_before_end_of_stream() {
    let mut m = Monitor::new();
    m.mark_launched();
    m.observe_line("About 10% done", 0);
    m.set_exit(true);
    m.end_of_stream();
    let result = m.result();
    assert!(result.success);
    assert_eq!(result.lines, ["About 10% done"]);
}

#[test]
fn launch_failure_completes_with_failed_disposition() {
    let mut m = Monitor::new();
    m.mark_launch_failed();
    let result = m.result();
    assert!(!result.success);
    assert!(result.lines.is_empty());
}
