use rust_recon::command::ScanOptions;
use rust_recon::command::build_nmap_args;
use rust_recon::command::scan_type_label;
use rust_recon::command::split_whitespace_words;
use rust_recon::command::ssl_protocol_supported;

fn no_options() -> ScanOptions {
    ScanOptions {
        comprehensive: false,
        quick: false,
        quick_options: None,
        noisey: false,
        stealthy: false,
        firewall_bypass: false,
        proxy: None,
        scripts: None,
    }
}

#[test]
fn quick_scan_defaults() {
    let mut opts = no_options();
    opts.quick = true;
    let args = build_nmap_args(&opts, "10.0.0.1", "out/10_0_0_1_nmap.xml");
    assert_eq!(
        args,
        [
            "--stats-every",
            "30s",
            "-F",
            "-T4",
            "-oX",
            "out/10_0_0_1_nmap.xml",
            "10.0.0.1"
        ]
    );
}

#[test]
fn quick_scan_custom_options_split_on_whitespace() {
    let mut opts = no_options();
    opts.quick = true;
    opts.quick_options = Some("-T3 -p 80,443,8080".to_string());
    let args = build_nmap_args(&opts, "t", "x.xml");
    assert_eq!(
        args,
        ["--stats-every", "30s", "-T3", "-p", "80,443,8080", "-oX", "x.xml", "t"]
    );
}

#[test]
fn comprehensive_scan_flags() {
    let mut opts = no_options();
    opts.comprehensive = true;
    let args = build_nmap_args(&opts, "t", "x.xml");
    assert_eq!(args, ["--stats-every", "30s", "-A", "-p-", "-oX", "x.xml", "t"]);
}

#[test]
fn stealthy_with_firewall_bypass_and_proxy() {
    let mut opts = no_options();
    opts.stealthy = true;
    opts.firewall_bypass = true;
    opts.proxy = Some("socks5://127.0.0.1:9050".to_string());
    let args = build_nmap_args(&opts, "t", "x.xml");
    assert_eq!(
        args,
        [
            "--stats-every",
            "30s",
            "-sS",
            "-T2",
            "--data-length",
            "15",
            "--mtu",
            "16",
            "-f",
            "--mtu",
            "16",
            "--spoof-mac",
            "0",
            "-D",
            "RND:5",
            "--proxies",
            "socks5://127.0.0.1:9050",
            "-oX",
            "x.xml",
            "t"
        ]
    );
}

#[test]
fn noisey_with_scripts() {
    let mut opts = no_options();
    opts.noisey = true;
    opts.scripts = Some("http,vuln".to_string());
    let args = build_nmap_args(&opts, "t", "x.xml");
    assert_eq!(
        args,
        [
            "--stats-every",
            "30s",
            "-T5",
            "-A",
            "--traceroute",
            "--script",
            "http,vuln",
            "-oX",
            "x.xml",
            "t"
        ]
    );
}

#[test]
fn scan_type_selection_order() {
    let mut opts = no_options();
    assert_eq!(scan_type_label(&opts), "custom");
    opts.noisey = true;
    assert_eq!(scan_type_label(&opts), "noisey");
    opts.stealthy = true;
    assert_eq!(scan_type_label(&opts), "stealthy");
    opts.quick = true;
    assert_eq!(scan_type_label(&opts), "quick");
    opts.comprehensive = true;
    assert_eq!(scan_type_label(&opts), "comprehensive");
}

#[test]
fn whitespace_splitting() {
    assert_eq!(split_whitespace_words("  a  bb\tc "), ["a", "bb", "c"]);
    assert_eq!(split_whitespace_words(""), [""; 0]);
    assert_eq!(split_whitespace_words("   \t "), [""; 0]);
    assert_eq!(split_whitespace_words("single"), ["single"]);
}

#[test]
fn ssl_protocol_support_detection() {
    assert!(ssl_protocol_supported(true, "-----BEGIN CERTIFICATE-----\nabc"));
    assert!(!ssl_protocol_supported(false, "-----BEGIN CERTIFICATE-----"));
    assert!(!ssl_protocol_supported(true, "handshake failure"));
}
