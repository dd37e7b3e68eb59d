use rust_recon::paths::base_filename;
use rust_recon::paths::ensure_http_url;
use rust_recon::paths::sanitize_target;
use rust_recon::paths::scan_dir_path;
use rust_recon::paths::scan_file_path;
use rust_recon::paths::shodan_host_url;
use rust_recon::paths::split_host_port;
use rust_recon::paths::timestamped_scan_dir;

#[test]
fn base_filename_replaces_dots() {
    assert_eq!(base_filename("10.0.0.1"), "10_0_0_1");
    assert_eq!(base_filename("example.com"), "example_com");
    assert_eq!(base_filename("hostname"), "hostname");
}

#[test]
fn sanitize_replaces_dots_and_slashes() {
    assert_eq!(sanitize_target("10.0.0.0/24"), "10_0_0_0_24");
    assert_eq!(sanitize_target("example.com"), "example_com");
}

#[test]
fn scan_dir_layout() {
    assert_eq!(
        scan_dir_path("./recon_results", "10.0.0.1", "20240101_120000"),
        "./recon_results/10_0_0_1_20240101_120000"
    );
}

#[test]
fn timestamped_dir_uses_returned_timestamp() {
    let (dir, ts) = timestamped_scan_dir("./out", "10.0.0.1");
    assert_eq!(dir, format!("./out/10_0_0_1_{}", ts));
}

#[test]
fn scan_file_layout() {
    assert_eq!(
        scan_file_path("./r/10_0_0_1_x", "10_0_0_1", "_nmap.xml"),
        "./r/10_0_0_1_x/10_0_0_1_nmap.xml"
    );
    assert_eq!(
        scan_file_path("d", "base", "_whois.txt"),
        "d/base_whois.txt"
    );
}

#[test]
fn http_url_prefixes_bare_hosts() {
    assert_eq!(ensure_http_url("example.com"), "http://example.com");
}

#[test]
fn http_url_keeps_existing_scheme() {
    assert_eq!(ensure_http_url("http://example.com"), "http://example.com");
    assert_eq!(ensure_http_url("https://example.com"), "https://example.com");
}

#[test]
fn host_port_split() {
    assert_eq!(split_host_port("example.com:8443"), ("example.com".to_string(), "8443".to_string()));
    assert_eq!(split_host_port("example.com"), ("example.com".to_string(), "443".to_string()));
    assert_eq!(split_host_port("a:b:c"), ("a".to_string(), "b".to_string()));
    assert_eq!(split_host_port("host:"), ("host".to_string(), "".to_string()));
}

#[test]
fn shodan_url_layout() {
    assert_eq!(
        shodan_host_url("1.2.3.4", "KEY"),
        "https://api.shodan.io/shodan/host/1.2.3.4?key=KEY"
    );
}
