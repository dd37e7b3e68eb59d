//! Naming for scan artifacts: per-session directories, per-tool output
//! files, target URLs, and host/port splitting.
//!
//! Everything here is a pure function of its inputs except the session
//! timestamp, which comes from the system clock through one trusted
//! wrapper; the directory name built around it is exact for whatever the
//! clock returned.

use vstd::prelude::*;

use crate::text::chars_of;
use crate::text::copy_range;
use crate::text::find_in_chars;
use crate::text::find_index;
use crate::text::lemma_find_index_characterizes;
use crate::text::occurs_at;
use crate::text::push_char;
use crate::text::starts_with_seq;
use crate::text::starts_with_sub;
use crate::text::string_of;

verus! {

/// How a target character appears in a base filename: dots become
/// underscores.
pub open spec fn base_char(c: char) -> char {
    if c == '.' {
        '_'
    } else {
        c
    }
}

/// How a target character appears in a directory name: dots and slashes
/// become underscores.
pub open spec fn dir_char(c: char) -> char {
    if c == '.' || c == '/' {
        '_'
    } else {
        c
    }
}

/// Base filename for a target: the target with dots replaced.
pub open spec fn base_name_text(target: Seq<char>) -> Seq<char> {
    Seq::new(target.len(), |i: int| base_char(target[i]))
}

/// Directory-safe form of a target: dots and slashes replaced.
pub open spec fn dir_component_text(target: Seq<char>) -> Seq<char> {
    Seq::new(target.len(), |i: int| dir_char(target[i]))
}

/// Base filename used for every per-tool output file of a session.
pub fn base_filename(target: &str) -> (r: String)
    ensures
        r@ == base_name_text(target@),
{
    let v = chars_of(target);
    let n = v.len();
    let mut s = String::new();
    let mut i: usize = 0;
    while i < n
        invariant
            n == v@.len(),
            v@ == target@,
            i <= n,
            s@.len() == i,
            forall|k: int| 0 <= k < i ==> s@[k] == base_char(target@[k]),
        decreases n - i,
    {
        let c = v[i];
        if c == '.' {
            push_char(&mut s, '_');
        } else {
            push_char(&mut s, c);
        }
        i += 1;
    }
    assert(s@ =~= base_name_text(target@));
    s
}

/// Directory-safe form of a target.
pub fn sanitize_target(target: &str) -> (r: String)
    ensures
        r@ == dir_component_text(target@),
{
    let v = chars_of(target);
    let n = v.len();
    let mut s = String::new();
    let mut i: usize = 0;
    while i < n
        invariant
            n == v@.len(),
            v@ == target@,
            i <= n,
            s@.len() == i,
            forall|k: int| 0 <= k < i ==> s@[k] == dir_char(target@[k]),
        decreases n - i,
    {
        let c = v[i];
        if c == '.' || c == '/' {
            push_char(&mut s, '_');
        } else {
            push_char(&mut s, c);
        }
        i += 1;
    }
    assert(s@ =~= dir_component_text(target@));
    s
}

/// The per-session scan directory.
pub open spec fn scan_dir_text(
    output_dir: Seq<char>,
    target: Seq<char>,
    timestamp: Seq<char>,
) -> Seq<char> {
    output_dir + "/"@ + dir_component_text(target) + "_"@ + timestamp
}

/// Per-session scan directory from an explicit timestamp.
pub fn scan_dir_path(output_dir: &str, target: &str, timestamp: &str) -> (r: String)
    ensures
        r@ == scan_dir_text(output_dir@, target@, timestamp@),
{
    let mut s = String::new();
    s.append(output_dir);
    s.append("/");
    let t = sanitize_target(target);
    s.append(t.as_str());
    s.append("_");
    s.append(timestamp);
    assert(s@ =~= scan_dir_text(output_dir@, target@, timestamp@));
    s
}

/// Relies on chrono's `Local::now`, rendered with the fixed format
/// `%Y%m%d_%H%M%S`; the format string is valid, so rendering cannot fail.
/// Nothing is promised of the result: it depends on the clock.
#[verifier::external_body]
fn local_timestamp_compact() -> String {
    chrono::Local::now().format("%Y%m%d_%H%M%S").to_string()
}

/// Per-session scan directory stamped with the current local time; the
/// timestamp used is returned alongside the path.
pub fn timestamped_scan_dir(output_dir: &str, target: &str) -> (r: (String, String))
    ensures
        r.0@ == scan_dir_text(output_dir@, target@, r.1@),
{
    let ts = local_timestamp_compact();
    let dir = scan_dir_path(output_dir, target, ts.as_str());
    (dir, ts)
}

/// A per-tool output file inside the scan directory:
/// `scan_dir/base_filename` followed by the tool's suffix.
pub fn scan_file_path(scan_dir: &str, base: &str, suffix: &str) -> (r: String)
    ensures
        r@ == scan_dir@ + "/"@ + base@ + suffix@,
{
    let mut s = String::new();
    s.append(scan_dir);
    s.append("/");
    s.append(base);
    s.append(suffix);
    assert(s@ =~= scan_dir@ + "/"@ + base@ + suffix@);
    s
}

/// A web target: passed through when it already names a scheme, otherwise
/// prefixed with `http://`.
pub open spec fn http_url_text(target: Seq<char>) -> Seq<char> {
    if starts_with_seq(target, "http://"@) || starts_with_seq(target, "https://"@) {
        target
    } else {
        "http://"@ + target
    }
}

/// Normalize a web-scan target to a URL.
pub fn ensure_http_url(target: &str) -> (r: String)
    ensures
        r@ == http_url_text(target@),
{
    if starts_with_sub(target, "http://") || starts_with_sub(target, "https://") {
        target.to_owned()
    } else {
        let mut s = String::new();
        s.append("http://");
        s.append(target);
        assert(s@ =~= "http://"@ + target@);
        s
    }
}

/// Host part of a target: everything before the first colon.
pub open spec fn host_text(target: Seq<char>) -> Seq<char> {
    match find_index(target, seq![':']) {
        None => target,
        Some(i) => target.subrange(0, i),
    }
}

/// Port part of a target: the segment after the first colon up to the
/// next colon or the end; 443 when no port is given.
pub open spec fn port_text(target: Seq<char>) -> Seq<char> {
    match find_index(target, seq![':']) {
        None => "443"@,
        Some(i) => {
            let rest = target.subrange(i + 1, target.len() as int);
            match find_index(rest, seq![':']) {
                None => rest,
                Some(j) => rest.subrange(0, j),
            }
        },
    }
}

/// Split a target into host and port, defaulting the port to 443.
pub fn split_host_port(target: &str) -> (r: (String, String))
    ensures
        r.0@ == host_text(target@),
        r.1@ == port_text(target@),
{
    let v = chars_of(target);
    let n = v.len();
    let colon = chars_of(":");
    proof {
        reveal_strlit(":");
        assert(colon@ =~= seq![':']);
    }
    match find_in_chars(&v, &colon) {
        None => {
            let port = String::from_str("443");
            (target.to_owned(), port)
        },
        Some(i) => {
            proof {
                lemma_find_index_characterizes(v@, colon@);
                assert(occurs_at(v@, colon@, i as int));
            }
            let host_v = copy_range(&v, 0, i);
            let rest = copy_range(&v, i + 1, n);
            let port_v = match find_in_chars(&rest, &colon) {
                None => rest,
                Some(j) => {
                    proof {
                        lemma_find_index_characterizes(rest@, colon@);
                        assert(occurs_at(rest@, colon@, j as int));
                    }
                    copy_range(&rest, 0, j)
                },
            };
            (string_of(&host_v), string_of(&port_v))
        },
    }
}

/// The Shodan host-lookup endpoint for a target and API key.
pub fn shodan_host_url(target: &str, key: &str) -> (r: String)
    ensures
        r@ == "https://api.shodan.io/shodan/host/"@ + target@ + "?key="@ + key@,
{
    let mut s = String::new();
    s.append("https://api.shodan.io/shodan/host/");
    s.append(target);
    s.append("?key=");
    s.append(key);
    assert(s@ =~= "https://api.shodan.io/shodan/host/"@ + target@ + "?key="@ + key@);
    s
}

} // verus!
