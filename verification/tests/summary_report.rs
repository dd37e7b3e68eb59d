use rust_recon::resource::ResourceManager;
use rust_recon::summary::ToolSelection;
use rust_recon::summary::summary_markdown;

fn no_tools() -> ToolSelection {
    ToolSelection {
        comprehensive: false,
        quick: false,
        stealthy: false,
        noisey: false,
        firewall_bypass: false,
        whois: false,
        shodan: false,
        nslookup: false,
        dig: false,
        gobuster: false,
        nikto: false,
        enum4linux: false,
        whatweb: false,
        dnsrecon: false,
        traceroute: false,
        ssl_check: false,
    }
}

#[test]
fn summary_lists_selected_tools_in_order() {
    let mut t = no_tools();
    t.quick = true;
    t.whois = true;
    t.ssl_check = true;
    let files = vec!["10_0_0_1_nmap.xml".to_string(), "10_0_0_1_whois.txt".to_string()];
    let s = summary_markdown(&t, "10.0.0.1", "2024-01-01 12:00:00", &files);
    let expected = "# Reconnaissance Scan Summary\n\
                    ## Target: 10.0.0.1\n\
                    ## Date: 2024-01-01 12:00:00\n\
                    ## Tools Used:\n\n\
                    - NMAP (Quick Scan)\n\
                    - WHOIS Lookup\n\
                    - SSL/TLS Configuration Check\n\n\
                    ## Files Generated:\n\n\
                    - 10_0_0_1_nmap.xml\n\
                    - 10_0_0_1_whois.txt\n";
    assert_eq!(s, expected);
}

#[test]
fn summary_skips_its_own_file() {
    let t = no_tools();
    let files = vec![
        "a.txt".to_string(),
        "SCAN_SUMMARY.md".to_string(),
        "b.txt".to_string(),
    ];
    let s = summary_markdown(&t, "t", "d", &files);
    assert!(s.ends_with("## Files Generated:\n\n- a.txt\n- b.txt\n"));
    assert!(!s.contains("- SCAN_SUMMARY.md"));
}

#[test]
fn summary_with_no_tools_and_no_files() {
    let t = no_tools();
    let s = summary_markdown(&t, "t", "d", &Vec::new());
    assert_eq!(
        s,
        "# Reconnaissance Scan Summary\n## Target: t\n## Date: d\n## Tools Used:\n\n\n## Files Generated:\n\n"
    );
}

#[test]
fn candidate_paths_order() {
    let bases = vec!["/usr/bin".to_string(), "/home/user/proj".to_string()];
    let env = Some("/etc/recon".to_string());
    let c = ResourceManager::candidate_paths("style.xsl", &env, &bases);
    assert_eq!(
        c,
        [
            "/etc/recon/style.xsl",
            "/usr/bin/style.xsl",
            "/usr/bin/src/utils/style.xsl",
            "/usr/bin/share/style.xsl",
            "/home/user/proj/style.xsl",
            "/home/user/proj/src/utils/style.xsl",
            "/home/user/proj/share/style.xsl"
        ]
    );
}

#[test]
fn candidate_paths_without_env_override() {
    let bases = vec!["/base".to_string()];
    let c = ResourceManager::candidate_paths("r.xsl", &None, &bases);
    assert_eq!(
        c,
        ["/base/r.xsl", "/base/src/utils/r.xsl", "/base/share/r.xsl"]
    );
}

#[test]
fn first_available_picks_earliest() {
    let candidates = vec!["a".to_string(), "b".to_string(), "c".to_string()];
    let exists = vec![false, true, true];
    assert_eq!(ResourceManager::first_available(&candidates, &exists), Some(1));
    let none = vec![false, false, false];
    assert_eq!(ResourceManager::first_available(&candidates, &none), None);
    let empty_c: Vec<String> = Vec::new();
    let empty_e: Vec<bool> = Vec::new();
    assert_eq!(ResourceManager::first_available(&empty_c, &empty_e), None);
}
