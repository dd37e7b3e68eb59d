//! Progress reporter: turns classified output lines into (phase, percent,
//! elapsed) status updates.
//!
//! The percent value is sticky: a phase-introducing line keeps the last
//! known percent, and a malformed percent marker changes nothing.  The
//! phase label is likewise kept until a new phase line arrives; before the
//! first one it is empty.

use vstd::prelude::*;

use crate::classify::LineClass;
use crate::classify::classify_line;
use crate::classify::is_percent_line;
use crate::classify::is_phase_line;
use crate::classify::lemma_percent_line_range;
use crate::classify::percent_of_line;
use crate::classify::task_label_of;
use crate::text::dec_digits;
use crate::text::push_char;
use crate::text::push_decimal;
use crate::text::push_two_digits;
use crate::text::two_digits;

verus! {

/// One status update handed to the display sink.
pub struct ProgressUpdate {
    /// Current phase label; empty while no phase line has been seen.
    pub phase: String,
    /// Last known percent complete; `None` while no percent line has been
    /// seen.
    pub percent: Option<u32>,
    /// Seconds elapsed since the session started.
    pub elapsed_secs: u64,
}

/// `h:mm:ss` rendering of a duration in seconds.
pub open spec fn hms_text(secs: int) -> Seq<char> {
    dec_digits(secs / 3600) + seq![':'] + two_digits((secs % 3600) / 60) + seq![':'] + two_digits(
        secs % 60,
    )
}

/// Render a duration in seconds as `h:mm:ss`.
pub fn format_hms(secs: u64) -> (r: String)
    ensures
        r@ == hms_text(secs as int),
{
    let mut s = String::new();
    push_decimal(&mut s, secs / 3600);
    push_char(&mut s, ':');
    push_two_digits(&mut s, (secs % 3600) / 60);
    push_char(&mut s, ':');
    push_two_digits(&mut s, secs % 60);
    assert(s@ =~= hms_text(secs as int));
    s
}

/// The percent figure shown in a status message; an unknown percent is
/// shown as zero.
pub open spec fn percent_text(percent: Option<u32>) -> Seq<char> {
    match percent {
        Some(p) => dec_digits(p as int),
        None => dec_digits(0),
    }
}

/// The status message for one update.
pub open spec fn status_text(
    scan_type: Seq<char>,
    phase: Seq<char>,
    percent: Option<u32>,
    elapsed_secs: int,
) -> Seq<char> {
    "NMAP "@ + scan_type + " scan: "@ + phase + " | "@ + percent_text(percent) + "% | "@
        + hms_text(elapsed_secs)
}

impl ProgressUpdate {
    /// Format the human-readable status message for the display sink.
    pub fn message(&self, scan_type: &str) -> (r: String)
        ensures
            r@ == status_text(scan_type@, self.phase@, self.percent, self.elapsed_secs as int),
    {
        let mut s = String::new();
        s.append("NMAP ");
        s.append(scan_type);
        s.append(" scan: ");
        s.append(self.phase.as_str());
        s.append(" | ");
        match self.percent {
            Some(p) => push_decimal(&mut s, p as u64),
            None => push_decimal(&mut s, 0),
        }
        s.append("% | ");
        let hms = format_hms(self.elapsed_secs);
        s.append(hms.as_str());
        assert(s@ =~= status_text(
            scan_type@,
            self.phase@,
            self.percent,
            self.elapsed_secs as int,
        ));
        s
    }
}

/// Sticky progress state fed by classified output lines.
pub struct Reporter {
    /// Current phase label; empty until the first phase line.
    pub phase: String,
    /// Last known percent; `None` until the first percent line.
    pub percent: Option<u32>,
}

/// How one line moves the reporter's sticky state: a percent line renews
/// the percent and keeps the phase, a phase line renews the phase and
/// keeps the percent, anything else changes nothing.
pub open spec fn reporter_step(pre: Reporter, post: Reporter, line: Seq<char>) -> bool {
    &&& (is_percent_line(line) ==> post.percent == Some(percent_of_line(line).unwrap())
        && post.phase@ == pre.phase@)
    &&& (is_phase_line(line) ==> post.phase@ == task_label_of(line) && post.percent == pre.percent)
    &&& (!is_percent_line(line) && !is_phase_line(line) ==> post == pre)
}

/// The update handed out for one line: present exactly for lines carrying
/// progress information, and mirroring the reporter's state after the line.
pub open spec fn update_reflects(
    post: Reporter,
    r: Option<ProgressUpdate>,
    line: Seq<char>,
    elapsed_secs: u64,
) -> bool {
    match r {
        Some(u) => {
            &&& (is_percent_line(line) || is_phase_line(line))
            &&& u.phase@ == post.phase@
            &&& u.percent == post.percent
            &&& u.elapsed_secs == elapsed_secs
        },
        None => !is_percent_line(line) && !is_phase_line(line),
    }
}

impl Reporter {
    /// The percent, when known, is within [0, 100].
    pub open spec fn wf(&self) -> bool {
        match self.percent {
            Some(p) => p <= 100,
            None => true,
        }
    }

    /// Fresh reporter: no phase seen, no percent seen.
    pub fn new() -> (r: Reporter)
        ensures
            r.wf(),
            r.phase@ == Seq::<char>::empty(),
            r.percent is None,
    {
        Reporter { phase: String::new(), percent: None }
    }

    /// Digest one output line; the returned update, when the line carries
    /// progress information, is what the display sink should show.
    pub fn observe(&mut self, line: &str, elapsed_secs: u64) -> (r: Option<ProgressUpdate>)
        requires
            old(self).wf(),
        ensures
            final(self).wf(),
            reporter_step(*old(self), *final(self), line@),
            update_reflects(*final(self), r, line@, elapsed_secs),
    {
        proof {
            lemma_percent_line_range(line@);
        }
        match classify_line(line) {
            LineClass::Percent(p) => {
                self.percent = Some(p);
                Some(
                    ProgressUpdate {
                        phase: self.phase.clone(),
                        percent: self.percent,
                        elapsed_secs,
                    },
                )
            },
            LineClass::Phase(label) => {
                self.phase = label;
                Some(
                    ProgressUpdate {
                        phase: self.phase.clone(),
                        percent: self.percent,
                        elapsed_secs,
                    },
                )
            },
            LineClass::Other => None,
        }
    }
}

} // verus!
