//! Line classifier for the scanner's progress output.
//!
//! Each output line either carries a percent-complete marker
//! (`... About NN% done ...`), introduces a new phase (`Initiating ...`),
//! or is neither.  Extraction is deliberately permissive: a malformed
//! marker never fails, it simply yields no update.
//!
//! Policy choices, stated here because the scanner's output grammar is not
//! formally specified anywhere: only the first `About ` marker of a line is
//! considered, the percent value must be followed by `%`, and a value
//! above 100 is rejected as a parse miss (the previous sticky value is
//! kept by the reporter).

use vstd::prelude::*;

use crate::text::bounded_digits_value;
use crate::text::chars_of;
use crate::text::contains_seq;
use crate::text::contains_sub;
use crate::text::copy_range;
use crate::text::find_in_chars;
use crate::text::find_index;
use crate::text::lemma_find_index_characterizes;
use crate::text::occurs_at;
use crate::text::parse_bounded_digits;
use crate::text::trim_spaces;
use crate::text::trim_spaces_exec;

verus! {

/// Percent value carried by a line: the digit run between the first
/// `About ` marker and the next `%`, trimmed, if it is a number in
/// [0, 100].
pub open spec fn percent_of_line(s: Seq<char>) -> Option<u32> {
    match find_index(s, "About "@) {
        None => None,
        Some(i) => {
            let rest = s.subrange(i + "About "@.len(), s.len() as int);
            match find_index(rest, seq!['%']) {
                None => None,
                Some(j) => bounded_digits_value(trim_spaces(rest.subrange(0, j)), 100),
            }
        },
    }
}

/// Extract the percent-complete value from one output line.
pub fn extract_percentage(line: &str) -> (r: Option<u32>)
    ensures
        r == percent_of_line(line@),
{
    let v = chars_of(line);
    let n = v.len();
    let marker = chars_of("About ");
    match find_in_chars(&v, &marker) {
        None => None,
        Some(i) => {
            proof {
                lemma_find_index_characterizes(v@, marker@);
                assert(occurs_at(v@, marker@, i as int));
            }
            let start = i + marker.len();
            let rest = copy_range(&v, start, n);
            let pct = chars_of("%");
            proof {
                reveal_strlit("%");
                assert(pct@ =~= seq!['%']);
            }
            match find_in_chars(&rest, &pct) {
                None => None,
                Some(j) => {
                    proof {
                        lemma_find_index_characterizes(rest@, pct@);
                        assert(occurs_at(rest@, pct@, j as int));
                    }
                    let body = copy_range(&rest, 0, j);
                    let trimmed = trim_spaces_exec(&body);
                    parse_bounded_digits(&trimmed, 100)
                },
            }
        },
    }
}

/// Human-readable phase label for a phase-introducing line: well-known
/// task names map to fixed labels, anything else passes through verbatim.
pub open spec fn task_label_of(line: Seq<char>) -> Seq<char> {
    if contains_seq(line, "SYN Stealth Scan"@) {
        "SYN Stealth Scanning"@
    } else if contains_seq(line, "Service scan"@) {
        "Service Version Detection"@
    } else if contains_seq(line, "NSE"@) {
        "Script Scanning"@
    } else if contains_seq(line, "OS detection"@) {
        "OS Detection"@
    } else if contains_seq(line, "Traceroute"@) {
        "Traceroute"@
    } else if contains_seq(line, "Host discovery"@) {
        "Host Discovery"@
    } else {
        line
    }
}

/// Map one output line to its phase label.
pub fn extract_current_task(line: &str) -> (r: String)
    ensures
        r@ == task_label_of(line@),
{
    if contains_sub(line, "SYN Stealth Scan") {
        String::from_str("SYN Stealth Scanning")
    } else if contains_sub(line, "Service scan") {
        String::from_str("Service Version Detection")
    } else if contains_sub(line, "NSE") {
        String::from_str("Script Scanning")
    } else if contains_sub(line, "OS detection") {
        String::from_str("OS Detection")
    } else if contains_sub(line, "Traceroute") {
        String::from_str("Traceroute")
    } else if contains_sub(line, "Host discovery") {
        String::from_str("Host Discovery")
    } else {
        line.to_owned()
    }
}

/// A recognized percent value is within [0, 100].
pub proof fn lemma_percent_line_range(s: Seq<char>)
    ensures
        percent_of_line(s) is Some ==> 0 <= percent_of_line(s).unwrap() <= 100,
{
    if percent_of_line(s) is Some {
        match find_index(s, "About "@) {
            Some(i) => {
                let rest = s.subrange(i + "About "@.len(), s.len() as int);
                match find_index(rest, seq!['%']) {
                    Some(j) => {
                        let body = trim_spaces(rest.subrange(0, j));
                        crate::text::lemma_digits_value_nonneg(body);
                    },
                    None => {},
                }
            },
            None => {},
        }
    }
}

/// Classification of one output line.
pub enum LineClass {
    /// The line carries a percent-complete update.
    Percent(u32),
    /// The line introduces a new phase, with its label.
    Phase(String),
    /// The line carries no progress information.
    Other,
}

/// The line carries a recognizable percent update.
pub open spec fn is_percent_line(s: Seq<char>) -> bool {
    contains_seq(s, "About"@) && contains_seq(s, "done"@) && percent_of_line(s) is Some
}

/// The line introduces a phase and is not a percent update.
pub open spec fn is_phase_line(s: Seq<char>) -> bool {
    !is_percent_line(s) && contains_seq(s, "Initiating"@)
}

/// Classify one output line.
pub fn classify_line(line: &str) -> (r: LineClass)
    ensures
        is_percent_line(line@) ==> r == LineClass::Percent(percent_of_line(line@).unwrap()),
        is_phase_line(line@) ==> (r matches LineClass::Phase(p) && p@ == task_label_of(line@)),
        !is_percent_line(line@) && !is_phase_line(line@) ==> r == LineClass::Other,
{
    if contains_sub(line, "About") && contains_sub(line, "done") {
        if let Some(p) = extract_percentage(line) {
            return LineClass::Percent(p);
        }
    }
    if contains_sub(line, "Initiating") {
        return LineClass::Phase(extract_current_task(line));
    }
    LineClass::Other
}

} // verus!
