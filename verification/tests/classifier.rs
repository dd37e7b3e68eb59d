use rust_recon::classify::LineClass;
use rust_recon::classify::classify_line;
use rust_recon::classify::extract_current_task;
use rust_recon::classify::extract_percentage;

#[test]
fn percent_well_formed() {
    assert_eq!(
        extract_percentage("SYN Stealth Scan Timing: About 42% done"),
        Some(42)
    );
    assert_eq!(extract_percentage("About 0% done"), Some(0));
    assert_eq!(extract_percentage("About 7% done; ETC: 10:34"), Some(7));
}

#[test]
fn percent_boundary_hundred() {
    assert_eq!(extract_percentage("About 100% done"), Some(100));
}

#[test]
fn percent_above_hundred_rejected() {
    assert_eq!(extract_percentage("About 101% done"), None);
    assert_eq!(extract_percentage("About 250% done"), None);
}

#[test]
fn percent_negative_rejected() {
    assert_eq!(extract_percentage("About -5% done"), None);
}

#[test]
fn percent_malformed_rejected() {
    assert_eq!(extract_percentage("About x% done"), None);
    assert_eq!(extract_percentage("About % done"), None);
    assert_eq!(extract_percentage("nothing to see here"), None);
    assert_eq!(extract_percentage("About 42 done"), None);
}

#[test]
fn percent_padding_tolerated() {
    assert_eq!(extract_percentage("About  42 % done"), Some(42));
    assert_eq!(extract_percentage("About 042% done"), Some(42));
}

#[test]
fn percent_uses_first_marker() {
    assert_eq!(extract_percentage("About 10% done, About 90% done"), Some(10));
}

#[test]
fn task_known_markers() {
    assert_eq!(
        extract_current_task("Initiating SYN Stealth Scan at 10:00"),
        "SYN Stealth Scanning"
    );
    assert_eq!(
        extract_current_task("Initiating Service scan at 10:05"),
        "Service Version Detection"
    );
    assert_eq!(extract_current_task("NSE: Loaded 100 scripts"), "Script Scanning");
    assert_eq!(
        extract_current_task("Initiating OS detection (try #1)"),
        "OS Detection"
    );
    assert_eq!(extract_current_task("Initiating Traceroute at 10:10"), "Traceroute");
    assert_eq!(
        extract_current_task("Initiating Host discovery at 09:59"),
        "Host Discovery"
    );
}

#[test]
fn task_unknown_marker_passes_through_verbatim() {
    let line = "Initiating Parallel DNS resolution of 1 host.";
    assert_eq!(extract_current_task(line), line);
}

#[test]
fn classify_percent_line() {
    let c = classify_line("Stats: About 87% done");
    assert!(matches!(c, LineClass::Percent(87)));
}

#[test]
fn classify_phase_line() {
    let c = classify_line("Initiating Service scan at 10:05");
    match c {
        LineClass::Phase(p) => assert_eq!(p, "Service Version Detection"),
        _ => panic!("expected a phase classification"),
    }
}

#[test]
fn classify_other_line() {
    assert!(matches!(classify_line("Discovered open port 80/tcp"), LineClass::Other));
    assert!(matches!(classify_line("About 120% done"), LineClass::Other));
}

#[test]
fn classify_percent_requires_done_marker() {
    assert!(matches!(classify_line("About 42%"), LineClass::Other));
}
