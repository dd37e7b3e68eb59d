//! Assembly of the scanner invocation: scan-type selection, whitespace
//! splitting of custom options, and the full ordered argument list.

use vstd::prelude::*;

use crate::text::chars_of;
use crate::text::contains_seq;
use crate::text::contains_sub;
use crate::text::push_char;

verus! {

/// Which scans and extras the operator selected for the scanner run.
pub struct ScanOptions {
    /// Full scan of all ports with version and OS detection.
    pub comprehensive: bool,
    /// Fast scan of the most common ports.
    pub quick: bool,
    /// Custom options overriding the quick-scan defaults.
    pub quick_options: Option<String>,
    /// Aggressive, easily detected scan.
    pub noisey: bool,
    /// Slow scan designed to evade detection.
    pub stealthy: bool,
    /// Fragmentation and decoy techniques to bypass firewalls.
    pub firewall_bypass: bool,
    /// Proxy specification for the scan.
    pub proxy: Option<String>,
    /// Scripts to run, comma-separated.
    pub scripts: Option<String>,
}

/// The label describing the selected scan type.
pub open spec fn scan_type_text(opts: ScanOptions) -> Seq<char> {
    if opts.comprehensive {
        "comprehensive"@
    } else if opts.quick {
        "quick"@
    } else if opts.stealthy {
        "stealthy"@
    } else if opts.noisey {
        "noisey"@
    } else {
        "custom"@
    }
}

/// Human-readable label for the selected scan type.
pub fn scan_type_label(opts: &ScanOptions) -> (r: String)
    ensures
        r@ == scan_type_text(*opts),
{
    if opts.comprehensive {
        String::from_str("comprehensive")
    } else if opts.quick {
        String::from_str("quick")
    } else if opts.stealthy {
        String::from_str("stealthy")
    } else if opts.noisey {
        String::from_str("noisey")
    } else {
        String::from_str("custom")
    }
}

/// Space or tab, the separators recognized inside custom option strings.
pub open spec fn is_ws_char(c: char) -> bool {
    c == ' ' || c == '\t'
}

/// Split on runs of whitespace, keeping the non-empty words in order.
pub open spec fn split_ws_text(s: Seq<char>) -> Seq<Seq<char>>
    decreases s.len(),
{
    if s.len() == 0 {
        Seq::empty()
    } else {
        let rest = split_ws_text(s.drop_first());
        if is_ws_char(s.first()) {
            rest
        } else if s.len() >= 2 && !is_ws_char(s[1]) {
            seq![seq![s.first()] + rest.first()] + rest.drop_first()
        } else {
            seq![seq![s.first()]] + rest
        }
    }
}

/// A run starting with a word character splits into at least one word.
proof fn lemma_split_ws_nonempty(s: Seq<char>)
    requires
        s.len() > 0,
        !is_ws_char(s.first()),
    ensures
        split_ws_text(s).len() >= 1,
{
}

fn is_ws_exec(c: char) -> (r: bool)
    ensures
        r == is_ws_char(c),
{
    c == ' ' || c == '\t'
}

/// Split a custom option string into its whitespace-separated words.
pub fn split_whitespace_words(s: &str) -> (r: Vec<String>)
    ensures
        r.deep_view() == split_ws_text(s@),
{
    let v = chars_of(s);
    let n = v.len();
    let mut out: Vec<String> = Vec::new();
    assert(out.deep_view() =~= split_ws_text(v@.subrange(n as int, n as int)));
    let mut idx: usize = n;
    while idx > 0
        invariant
            n == v@.len(),
            v@ == s@,
            idx <= n,
            out.deep_view() == split_ws_text(v@.subrange(idx as int, n as int)),
        decreases idx,
    {
        idx -= 1;
        let c = v[idx];
        let ghost suf = v@.subrange(idx as int, n as int);
        let ghost tail = v@.subrange(idx + 1, n as int);
        proof {
            assert(suf.len() > 0);
            assert(suf.first() == v@[idx as int]);
            assert(suf.drop_first() =~= tail);
        }
        if is_ws_exec(c) {
            proof {
                assert(out.deep_view() =~= split_ws_text(suf));
            }
        } else if idx + 1 < n && !is_ws_exec(v[idx + 1]) {
            proof {
                assert(tail.len() > 0 && !is_ws_char(tail.first()));
                lemma_split_ws_nonempty(tail);
            }
            let head = out.remove(0);
            let mut w = String::new();
            push_char(&mut w, c);
            w.append(head.as_str());
            let ghost shrunk = out.deep_view();
            out.insert(0, w);
            proof {
                let rest = split_ws_text(tail);
                assert(suf[1] == v@[idx + 1]);
                assert(w@ =~= seq![suf.first()] + rest.first());
                assert(shrunk =~= rest.drop_first());
                assert(out.deep_view() =~= seq![seq![suf.first()] + rest.first()]
                    + rest.drop_first());
                assert(out.deep_view() =~= split_ws_text(suf));
            }
        } else {
            let mut w = String::new();
            push_char(&mut w, c);
            out.insert(0, w);
            proof {
                let rest = split_ws_text(tail);
                assert(w@ =~= seq![suf.first()]);
                assert(out.deep_view() =~= seq![seq![suf.first()]] + rest);
                assert(out.deep_view() =~= split_ws_text(suf));
            }
        }
    }
    assert(v@.subrange(0, n as int) =~= s@);
    out
}

/// Append one word to an argument list.
fn push_word(args: &mut Vec<String>, w: &str)
    ensures
        final(args).deep_view() == old(args).deep_view().push(w@),
{
    args.push(w.to_owned());
    proof {
        assert(args.deep_view() =~= old(args).deep_view().push(w@));
    }
}

/// Append a whole word list to an argument list.
fn append_words(args: &mut Vec<String>, words: Vec<String>)
    ensures
        final(args).deep_view() == old(args).deep_view() + words.deep_view(),
{
    let n = words.len();
    let mut i: usize = 0;
    assert(old(args).deep_view() + words.deep_view().take(0) =~= old(args).deep_view());
    while i < n
        invariant
            n == words.len(),
            i <= n,
            args.deep_view() == old(args).deep_view() + words.deep_view().take(i as int),
        decreases n - i,
    {
        let w = words[i].clone();
        proof {
            assert(w@ == words.deep_view()[i as int]);
        }
        let ghost pre = args.deep_view();
        args.push(w);
        proof {
            assert(args.deep_view() =~= pre.push(words.deep_view()[i as int]));
            assert(words.deep_view().take(i + 1) =~= words.deep_view().take(i as int).push(
                words.deep_view()[i as int],
            ));
            assert(args.deep_view() =~= old(args).deep_view() + words.deep_view().take(i + 1));
        }
        i += 1;
    }
    assert(words.deep_view().take(n as int) =~= words.deep_view());
}

/// The per-scan-type flags, in selection order.
pub open spec fn scan_flag_args(opts: ScanOptions) -> Seq<Seq<char>> {
    (if opts.comprehensive {
        seq!["-A"@, "-p-"@]
    } else {
        Seq::<Seq<char>>::empty()
    }) + (if opts.quick {
        match opts.quick_options {
            Some(q) => split_ws_text(q@),
            None => seq!["-F"@, "-T4"@],
        }
    } else {
        Seq::<Seq<char>>::empty()
    }) + (if opts.noisey {
        seq!["-T5"@, "-A"@, "--traceroute"@]
    } else {
        Seq::<Seq<char>>::empty()
    }) + (if opts.stealthy {
        seq!["-sS"@, "-T2"@, "--data-length"@, "15"@, "--mtu"@, "16"@]
    } else {
        Seq::<Seq<char>>::empty()
    }) + (if opts.firewall_bypass {
        seq!["-f"@, "--mtu"@, "16"@, "--spoof-mac"@, "0"@, "-D"@, "RND:5"@]
    } else {
        Seq::<Seq<char>>::empty()
    })
}

/// The trailing arguments: proxy, scripts, structured-output file, and the
/// target last.
pub open spec fn tail_args(opts: ScanOptions, target: Seq<char>, xml_output: Seq<char>) -> Seq<
    Seq<char>,
> {
    (match opts.proxy {
        Some(p) => seq!["--proxies"@, p@],
        None => Seq::<Seq<char>>::empty(),
    }) + (match opts.scripts {
        Some(sc) => seq!["--script"@, sc@],
        None => Seq::<Seq<char>>::empty(),
    }) + seq!["-oX"@, xml_output] + seq![target]
}

/// The ordered argument list handed to the scanner, as the selected
/// options dictate: periodic status updates first, then the per-scan-type
/// flags, proxy, scripts, structured-output file, and the target last.
pub open spec fn nmap_args_text(
    opts: ScanOptions,
    target: Seq<char>,
    xml_output: Seq<char>,
) -> Seq<Seq<char>> {
    seq!["--stats-every"@, "30s"@] + scan_flag_args(opts) + tail_args(opts, target, xml_output)
}

/// Flags for the comprehensive scan, when selected.
fn comprehensive_flags(on: bool) -> (r: Vec<String>)
    ensures
        r.deep_view() == if on {
            seq!["-A"@, "-p-"@]
        } else {
            Seq::<Seq<char>>::empty()
        },
{
    let mut v: Vec<String> = Vec::new();
    assert(v.deep_view() =~= Seq::<Seq<char>>::empty());
    if on {
        push_word(&mut v, "-A");
        push_word(&mut v, "-p-");
        assert(v.deep_view() =~= seq!["-A"@, "-p-"@]);
    }
    v
}

/// Flags for the quick scan, when selected: the custom options, split on
/// whitespace, or the defaults.
fn quick_flags(on: bool, quick_options: &Option<String>) -> (r: Vec<String>)
    ensures
        r.deep_view() == if on {
            match quick_options {
                Some(q) => split_ws_text(q@),
                None => seq!["-F"@, "-T4"@],
            }
        } else {
            Seq::<Seq<char>>::empty()
        },
{
    let mut v: Vec<String> = Vec::new();
    assert(v.deep_view() =~= Seq::<Seq<char>>::empty());
    if on {
        match quick_options {
            Some(q) => {
                return split_whitespace_words(q.as_str());
            },
            None => {
                push_word(&mut v, "-F");
                push_word(&mut v, "-T4");
                assert(v.deep_view() =~= seq!["-F"@, "-T4"@]);
            },
        }
    }
    v
}

/// Flags for the noisey scan, when selected.
fn noisey_flags(on: bool) -> (r: Vec<String>)
    ensures
        r.deep_view() == if on {
            seq!["-T5"@, "-A"@, "--traceroute"@]
        } else {
            Seq::<Seq<char>>::empty()
        },
{
    let mut v: Vec<String> = Vec::new();
    assert(v.deep_view() =~= Seq::<Seq<char>>::empty());
    if on {
        push_word(&mut v, "-T5");
        push_word(&mut v, "-A");
        push_word(&mut v, "--traceroute");
        assert(v.deep_view() =~= seq!["-T5"@, "-A"@, "--traceroute"@]);
    }
    v
}

/// Flags for the stealthy scan, when selected.
fn stealthy_flags(on: bool) -> (r: Vec<String>)
    ensures
        r.deep_view() == if on {
            seq!["-sS"@, "-T2"@, "--data-length"@, "15"@, "--mtu"@, "16"@]
        } else {
            Seq::<Seq<char>>::empty()
        },
{
    let mut v: Vec<String> = Vec::new();
    assert(v.deep_view() =~= Seq::<Seq<char>>::empty());
    if on {
        push_word(&mut v, "-sS");
        push_word(&mut v, "-T2");
        push_word(&mut v, "--data-length");
        push_word(&mut v, "15");
        push_word(&mut v, "--mtu");
        push_word(&mut v, "16");
        assert(v.deep_view() =~= seq!["-sS"@, "-T2"@, "--data-length"@, "15"@, "--mtu"@, "16"@]);
    }
    v
}

/// Flags for firewall bypassing, when selected.
fn firewall_flags(on: bool) -> (r: Vec<String>)
    ensures
        r.deep_view() == if on {
            seq!["-f"@, "--mtu"@, "16"@, "--spoof-mac"@, "0"@, "-D"@, "RND:5"@]
        } else {
            Seq::<Seq<char>>::empty()
        },
{
    let mut v: Vec<String> = Vec::new();
    assert(v.deep_view() =~= Seq::<Seq<char>>::empty());
    if on {
        push_word(&mut v, "-f");
        push_word(&mut v, "--mtu");
        push_word(&mut v, "16");
        push_word(&mut v, "--spoof-mac");
        push_word(&mut v, "0");
        push_word(&mut v, "-D");
        push_word(&mut v, "RND:5");
        assert(v.deep_view() =~= seq!["-f"@, "--mtu"@, "16"@, "--spoof-mac"@, "0"@, "-D"@, "RND:5"@]);
    }
    v
}

/// Build the per-scan-type flags.
fn build_scan_flags(opts: &ScanOptions) -> (r: Vec<String>)
    ensures
        r.deep_view() == scan_flag_args(*opts),
{
    let mut args = comprehensive_flags(opts.comprehensive);
    append_words(&mut args, quick_flags(opts.quick, &opts.quick_options));
    append_words(&mut args, noisey_flags(opts.noisey));
    append_words(&mut args, stealthy_flags(opts.stealthy));
    append_words(&mut args, firewall_flags(opts.firewall_bypass));
    assert(args.deep_view() =~= scan_flag_args(*opts));
    args
}

/// Build the scanner's argument list.
pub fn build_nmap_args(opts: &ScanOptions, target: &str, xml_output: &str) -> (r: Vec<String>)
    ensures
        r.deep_view() == nmap_args_text(*opts, target@, xml_output@),
{
    let mut args: Vec<String> = Vec::new();
    push_word(&mut args, "--stats-every");
    push_word(&mut args, "30s");
    let ghost acc = seq!["--stats-every"@, "30s"@];
    assert(args.deep_view() =~= acc);
    let flags = build_scan_flags(opts);
    append_words(&mut args, flags);
    let ghost acc = acc + scan_flag_args(*opts);
    assert(args.deep_view() =~= acc);
    match &opts.proxy {
        Some(p) => {
            push_word(&mut args, "--proxies");
            push_word(&mut args, p.as_str());
        },
        None => {},
    }
    let ghost acc = acc + (match &opts.proxy {
        Some(p) => seq!["--proxies"@, p@],
        None => Seq::<Seq<char>>::empty(),
    });
    assert(args.deep_view() =~= acc);
    match &opts.scripts {
        Some(sc) => {
            push_word(&mut args, "--script");
            push_word(&mut args, sc.as_str());
        },
        None => {},
    }
    let ghost acc = acc + (match &opts.scripts {
        Some(sc) => seq!["--script"@, sc@],
        None => Seq::<Seq<char>>::empty(),
    });
    assert(args.deep_view() =~= acc);
    push_word(&mut args, "-oX");
    push_word(&mut args, xml_output);
    push_word(&mut args, target);
    assert(args.deep_view() =~= acc + seq!["-oX"@, xml_output@] + seq![target@]);
    assert(args.deep_view() =~= nmap_args_text(*opts, target@, xml_output@));
    args
}

/// Whether one protocol probe of the SSL/TLS check found the protocol
/// supported: the probe succeeded and its output carries a certificate.
pub fn ssl_protocol_supported(probe_success: bool, probe_stdout: &str) -> (r: bool)
    ensures
        r == (probe_success && contains_seq(probe_stdout@, "BEGIN CERTIFICATE"@)),
{
    probe_success && contains_sub(probe_stdout, "BEGIN CERTIFICATE")
}

} // verus!
