//! The scan-summary document: a markdown report naming the target, the
//! date, every tool that ran, and every file the session produced.

use vstd::prelude::*;

verus! {

/// Which tools ran in one session, in the order the summary lists them.
pub struct ToolSelection {
    /// Comprehensive scan.
    pub comprehensive: bool,
    /// Quick scan.
    pub quick: bool,
    /// Stealthy scan.
    pub stealthy: bool,
    /// Noisey scan.
    pub noisey: bool,
    /// Firewall bypass techniques.
    pub firewall_bypass: bool,
    /// WHOIS lookup.
    pub whois: bool,
    /// Shodan API lookup.
    pub shodan: bool,
    /// NSLookup.
    pub nslookup: bool,
    /// DIG DNS lookup.
    pub dig: bool,
    /// Gobuster web directory enumeration.
    pub gobuster: bool,
    /// Nikto web vulnerability scan.
    pub nikto: bool,
    /// Enum4linux Windows/Samba enumeration.
    pub enum4linux: bool,
    /// WhatWeb technology identification.
    pub whatweb: bool,
    /// DNSrecon domain enumeration.
    pub dnsrecon: bool,
    /// Traceroute network path discovery.
    pub traceroute: bool,
    /// SSL/TLS configuration check.
    pub ssl_check: bool,
}

/// The summary's header block.
pub open spec fn header_text(target: Seq<char>, date: Seq<char>) -> Seq<char> {
    "# Reconnaissance Scan Summary\n## Target: "@ + target + "\n## Date: "@ + date
        + "\n## Tools Used:\n\n"@
}

/// One optional bullet line.
pub open spec fn line_if(on: bool, line: Seq<char>) -> Seq<char> {
    if on {
        line
    } else {
        Seq::<char>::empty()
    }
}

/// The bullet lines for the scanner's own scan types.
pub open spec fn scan_tool_lines(t: ToolSelection) -> Seq<char> {
    line_if(t.comprehensive, "- NMAP (Comprehensive Scan)\n"@) + line_if(
        t.quick,
        "- NMAP (Quick Scan)\n"@,
    ) + line_if(t.stealthy, "- NMAP (Stealthy Scan)\n"@) + line_if(
        t.noisey,
        "- NMAP (Noisey Scan)\n"@,
    ) + line_if(t.firewall_bypass, "- NMAP (Firewall Bypass Techniques)\n"@)
}

/// The bullet lines for the lookup tools.
pub open spec fn lookup_tool_lines(t: ToolSelection) -> Seq<char> {
    line_if(t.whois, "- WHOIS Lookup\n"@) + line_if(t.shodan, "- Shodan API Lookup\n"@) + line_if(
        t.nslookup,
        "- NSLookup\n"@,
    ) + line_if(t.dig, "- DIG DNS Lookup\n"@) + line_if(
        t.gobuster,
        "- Gobuster Web Directory Enumeration\n"@,
    ) + line_if(t.nikto, "- Nikto Web Vulnerability Scanner\n"@)
}

/// The bullet lines for the enumeration and inspection tools.
pub open spec fn enumeration_tool_lines(t: ToolSelection) -> Seq<char> {
    line_if(t.enum4linux, "- Enum4linux Windows/Samba Enumeration\n"@) + line_if(
        t.whatweb,
        "- WhatWeb Technology Identification\n"@,
    ) + line_if(t.dnsrecon, "- DNSrecon Domain Enumeration\n"@) + line_if(
        t.traceroute,
        "- Traceroute Network Path Discovery\n"@,
    ) + line_if(t.ssl_check, "- SSL/TLS Configuration Check\n"@)
}

/// The bullet lines for the external lookup and enumeration tools.
pub open spec fn aux_tool_lines(t: ToolSelection) -> Seq<char> {
    lookup_tool_lines(t) + enumeration_tool_lines(t)
}

/// One file's bullet line; the summary file itself is left out.
pub open spec fn file_line(name: Seq<char>) -> Seq<char> {
    if name == "SCAN_SUMMARY.md"@ {
        Seq::<char>::empty()
    } else {
        "- "@ + name + "\n"@
    }
}

/// The bullet lines for the files a session produced, in order.
pub open spec fn file_lines(files: Seq<Seq<char>>) -> Seq<char>
    decreases files.len(),
{
    if files.len() == 0 {
        Seq::<char>::empty()
    } else {
        file_lines(files.drop_last()) + file_line(files.last())
    }
}

/// The whole summary document.
pub open spec fn summary_text(
    t: ToolSelection,
    target: Seq<char>,
    date: Seq<char>,
    files: Seq<Seq<char>>,
) -> Seq<char> {
    header_text(target, date) + scan_tool_lines(t) + aux_tool_lines(t)
        + "\n## Files Generated:\n\n"@ + file_lines(files)
}

/// Append one bullet line when its tool ran.
fn push_tool_line(s: &mut String, on: bool, line: &str)
    ensures
        final(s)@ == old(s)@ + line_if(on, line@),
{
    if on {
        s.append(line);
    } else {
        assert(s@ =~= old(s)@ + Seq::<char>::empty());
    }
}

/// Append the bullet lines for the scanner's own scan types.
fn append_scan_tool_lines(s: &mut String, t: &ToolSelection)
    ensures
        final(s)@ == old(s)@ + scan_tool_lines(*t),
{
    push_tool_line(s, t.comprehensive, "- NMAP (Comprehensive Scan)\n");
    push_tool_line(s, t.quick, "- NMAP (Quick Scan)\n");
    push_tool_line(s, t.stealthy, "- NMAP (Stealthy Scan)\n");
    push_tool_line(s, t.noisey, "- NMAP (Noisey Scan)\n");
    push_tool_line(s, t.firewall_bypass, "- NMAP (Firewall Bypass Techniques)\n");
    assert(s@ =~= old(s)@ + scan_tool_lines(*t));
}

/// Append the bullet lines for the lookup tools.
#[verifier::rlimit(60)]
fn append_lookup_tool_lines(s: &mut String, t: &ToolSelection)
    ensures
        final(s)@ == old(s)@ + lookup_tool_lines(*t),
{
    push_tool_line(s, t.whois, "- WHOIS Lookup\n");
    push_tool_line(s, t.shodan, "- Shodan API Lookup\n");
    push_tool_line(s, t.nslookup, "- NSLookup\n");
    push_tool_line(s, t.dig, "- DIG DNS Lookup\n");
    push_tool_line(s, t.gobuster, "- Gobuster Web Directory Enumeration\n");
    push_tool_line(s, t.nikto, "- Nikto Web Vulnerability Scanner\n");
    assert(s@ =~= old(s)@ + lookup_tool_lines(*t));
}

/// Append the bullet lines for the enumeration and inspection tools.
#[verifier::rlimit(60)]
fn append_enumeration_tool_lines(s: &mut String, t: &ToolSelection)
    ensures
        final(s)@ == old(s)@ + enumeration_tool_lines(*t),
{
    push_tool_line(s, t.enum4linux, "- Enum4linux Windows/Samba Enumeration\n");
    push_tool_line(s, t.whatweb, "- WhatWeb Technology Identification\n");
    push_tool_line(s, t.dnsrecon, "- DNSrecon Domain Enumeration\n");
    push_tool_line(s, t.traceroute, "- Traceroute Network Path Discovery\n");
    push_tool_line(s, t.ssl_check, "- SSL/TLS Configuration Check\n");
    assert(s@ =~= old(s)@ + enumeration_tool_lines(*t));
}

/// Render the scan-summary document for one session.
pub fn summary_markdown(t: &ToolSelection, target: &str, date: &str, files: &Vec<String>) -> (r:
    String)
    ensures
        r@ == summary_text(*t, target@, date@, files.deep_view()),
{
    let mut s = String::new();
    s.append("# Reconnaissance Scan Summary\n## Target: ");
    s.append(target);
    s.append("\n## Date: ");
    s.append(date);
    s.append("\n## Tools Used:\n\n");
    assert(s@ =~= header_text(target@, date@));
    let ghost acc = header_text(target@, date@);
    append_scan_tool_lines(&mut s, t);
    let ghost acc = acc + scan_tool_lines(*t);
    assert(s@ =~= acc);
    append_lookup_tool_lines(&mut s, t);
    append_enumeration_tool_lines(&mut s, t);
    let ghost acc = acc + aux_tool_lines(*t);
    assert(s@ =~= acc);
    s.append("\n## Files Generated:\n\n");
    let ghost acc = acc + "\n## Files Generated:\n\n"@;
    assert(s@ =~= acc);
    let n = files.len();
    let mut i: usize = 0;
    assert(files.deep_view().take(0) =~= Seq::<Seq<char>>::empty());
    while i < n
        invariant
            n == files.len(),
            i <= n,
            s@ == acc + file_lines(files.deep_view().take(i as int)),
        decreases n - i,
    {
        let name = &files[i];
        proof {
            assert(name@ == files.deep_view()[i as int]);
        }
        if !str_eq(name.as_str(), "SCAN_SUMMARY.md") {
            s.append("- ");
            s.append(name.as_str());
            s.append("\n");
        }
        proof {
            let dv = files.deep_view();
            assert(dv.take(i + 1).drop_last() =~= dv.take(i as int));
            assert(dv.take(i + 1).last() == dv[i as int]);
            assert(s@ =~= acc + file_lines(dv.take(i + 1)));
        }
        i += 1;
    }
    assert(files.deep_view().take(n as int) =~= files.deep_view());
    assert(s@ =~= summary_text(*t, target@, date@, files.deep_view()));
    s
}

/// Character-for-character string equality.
fn str_eq(a: &str, b: &str) -> (r: bool)
    ensures
        r == (a@ == b@),
{
    let av = crate::text::chars_of(a);
    let bv = crate::text::chars_of(b);
    let n = av.len();
    let m = bv.len();
    if n != m {
        return false;
    }
    let mut i: usize = 0;
    while i < n
        invariant
            n == av@.len(),
            n == bv@.len(),
            av@ == a@,
            bv@ == b@,
            i <= n,
            forall|k: int| 0 <= k < i ==> av@[k] == bv@[k],
        decreases n - i,
    {
        if av[i] != bv[i] {
            return false;
        }
        i += 1;
    }
    assert(a@ =~= b@);
    true
}

} // verus!
