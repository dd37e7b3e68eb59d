use rust_recon::report::Reporter;
use rust_recon::report::format_hms;

#[test]
fn phase_update_reflects_mapped_label() {
    let mut r = Reporter::new();
    let u = r
        .observe("Initiating SYN Stealth Scan at 10:00", 3)
        .expect("phase line must yield an update");
    assert_eq!(u.phase, "SYN Stealth Scanning");
    assert_eq!(u.percent, None);
    assert_eq!(u.elapsed_secs, 3);
}

#[test]
fn unrecognized_phase_passes_verbatim() {
    let mut r = Reporter::new();
    let u = r
        .observe("Initiating Connect Scan", 0)
        .expect("phase line must yield an update");
    assert_eq!(u.phase, "Initiating Connect Scan");
}

#[test]
fn percent_is_sticky_across_phase_lines() {
    let mut r = Reporter::new();
    r.observe("About 42% done", 10);
    let u = r
        .observe("Initiating Service scan", 20)
        .expect("phase line must yield an update");
    assert_eq!(u.percent, Some(42));
    assert_eq!(u.phase, "Service Version Detection");
}

#[test]
fn malformed_percent_keeps_sticky_value() {
    let mut r = Reporter::new();
    r.observe("About 42% done", 10);
    let none = r.observe("About banana% done", 15);
    assert!(none.is_none());
    let u = r
        .observe("Initiating Traceroute", 20)
        .expect("phase line must yield an update");
    assert_eq!(u.percent, Some(42));
}

#[test]
fn out_of_range_percent_keeps_sticky_value() {
    let mut r = Reporter::new();
    r.observe("About 99% done", 10);
    let none = r.observe("About 150% done", 15);
    assert!(none.is_none());
    let u = r
        .observe("Initiating Traceroute", 20)
        .expect("phase line must yield an update");
    assert_eq!(u.percent, Some(99));
}

#[test]
fn uninformative_lines_yield_no_update() {
    let mut r = Reporter::new();
    assert!(r.observe("Discovered open port 443/tcp", 1).is_none());
    assert!(r.observe("", 2).is_none());
}

#[test]
fn elapsed_formatting() {
    assert_eq!(format_hms(0), "0:00:00");
    assert_eq!(format_hms(59), "0:00:59");
    assert_eq!(format_hms(61), "0:01:01");
    assert_eq!(format_hms(3661), "1:01:01");
    assert_eq!(format_hms(86399), "23:59:59");
    assert_eq!(format_hms(360000), "100:00:00");
}

#[test]
fn status_message_format() {
    let mut r = Reporter::new();
    r.observe("About 42% done", 30);
    let u = r
        .observe("Initiating Service scan", 65)
        .expect("phase line must yield an update");
    let msg = u.message("quick");
    assert_eq!(msg, "NMAP quick scan: Service Version Detection | 42% | 0:01:05");
}

#[test]
fn status_message_unknown_percent_shows_zero() {
    let mut r = Reporter::new();
    let u = r
        .observe("Initiating Host discovery", 2)
        .expect("phase line must yield an update");
    let msg = u.message("custom");
    assert_eq!(msg, "NMAP custom scan: Host Discovery | 0% | 0:00:02");
}
