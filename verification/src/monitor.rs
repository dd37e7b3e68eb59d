//! Streaming subprocess monitor: a state machine that records every output
//! line of a monitored scan, drives the progress reporter, and assembles
//! the final captured output once the subprocess has exited and its output
//! stream has been drained.
//!
//! States move `Launching -> Running -> Draining -> Completed`; completion
//! requires both end-of-stream and the exit status, in either order.  A
//! launch failure jumps straight to `Completed` with a failed disposition.
//! No update is accepted after end-of-stream: the recording and reporting
//! entry point requires the `Running` state.

use vstd::prelude::*;

use crate::report::ProgressUpdate;
use crate::report::Reporter;
use crate::report::reporter_step;
use crate::report::update_reflects;

verus! {

/// Lifecycle state of one monitored session.
pub enum MonitorPhase {
    /// The subprocess has not been spawned yet.
    Launching,
    /// Output is being drained line by line.
    Running,
    /// End-of-stream was observed; the exit status is still outstanding.
    Draining,
    /// Both end-of-stream and the exit status have been observed.
    Completed,
}

/// Final disposition of one monitored session: the subprocess's own exit
/// disposition plus the full captured output, line by line.
pub struct CommandResult {
    /// Whether the subprocess exited successfully.
    pub success: bool,
    /// Every output line, in the order the subprocess produced them.
    pub lines: Vec<String>,
}

/// The captured output: every line followed by a newline.
pub open spec fn joined_output(lines: Seq<Seq<char>>) -> Seq<char>
    decreases lines.len(),
{
    if lines.len() == 0 {
        Seq::empty()
    } else {
        joined_output(lines.drop_last()) + lines.last() + seq!['\n']
    }
}

/// Splitting on newlines, where a trailing newline closes the last line.
pub open spec fn split_lines_text(s: Seq<char>) -> Seq<Seq<char>>
    decreases s.len(),
{
    if s.len() == 0 {
        Seq::empty()
    } else {
        let rest = split_lines_text(s.drop_first());
        if s.first() == '\n' {
            seq![Seq::<char>::empty()] + rest
        } else if rest.len() == 0 {
            seq![s]
        } else {
            seq![seq![s.first()] + rest.first()] + rest.drop_first()
        }
    }
}

/// A log replayed from the same starting point with the same ordered lines
/// is always the starting log followed by exactly those lines: draining is
/// deterministic, drops nothing, duplicates nothing, and keeps order.
pub proof fn lemma_replay_deterministic(init: Seq<Seq<char>>, lines: Seq<Seq<char>>)
    ensures
        recorded_log(init, lines) == init + lines,
    decreases lines.len(),
{
    if lines.len() == 0 {
        assert(recorded_log(init, lines) =~= init + lines);
    } else {
        lemma_replay_deterministic(init.push(lines.first()), lines.drop_first());
        assert(init.push(lines.first()) + lines.drop_first() =~= init + lines);
    }
}

/// The log after draining `lines` in order, starting from `init`.
pub open spec fn recorded_log(init: Seq<Seq<char>>, lines: Seq<Seq<char>>) -> Seq<Seq<char>>
    decreases lines.len(),
{
    if lines.len() == 0 {
        init
    } else {
        recorded_log(init.push(lines.first()), lines.drop_first())
    }
}

/// Front decomposition of the joined output.
proof fn lemma_joined_first(lines: Seq<Seq<char>>)
    requires
        lines.len() > 0,
    ensures
        joined_output(lines) == lines.first() + seq!['\n'] + joined_output(lines.drop_first()),
    decreases lines.len(),
{
    if lines.len() == 1 {
        assert(lines.drop_last() =~= Seq::<Seq<char>>::empty());
        assert(lines.drop_first() =~= Seq::<Seq<char>>::empty());
        assert(joined_output(lines) =~= lines.first() + seq!['\n'] + joined_output(
            lines.drop_first(),
        ));
    } else {
        let head = lines.drop_last();
        lemma_joined_first(head);
        assert(head.first() == lines.first());
        assert(head.drop_first() =~= lines.drop_first().drop_last());
        assert(lines.drop_first().last() == lines.last());
        assert(joined_output(lines) == joined_output(head) + lines.last() + seq!['\n']);
        assert(joined_output(lines) =~= lines.first() + seq!['\n'] + (joined_output(
            lines.drop_first().drop_last(),
        ) + lines.drop_first().last() + seq!['\n']));
    }
}

/// A chunk without newlines followed by a newline splits off as one line.
proof fn lemma_split_prepend_line(l0: Seq<char>, rest: Seq<char>)
    requires
        forall|k: int| 0 <= k < l0.len() ==> l0[k] != '\n',
    ensures
        split_lines_text(l0 + seq!['\n'] + rest) == seq![l0] + split_lines_text(rest),
    decreases l0.len(),
{
    let s = l0 + seq!['\n'] + rest;
    if l0.len() == 0 {
        assert(s.first() == '\n');
        assert(s.drop_first() =~= rest);
        assert(l0 =~= Seq::<char>::empty());
        assert(split_lines_text(s) =~= seq![l0] + split_lines_text(rest));
    } else {
        let l1 = l0.drop_first();
        lemma_split_prepend_line(l1, rest);
        assert(s.first() == l0.first());
        assert(s.first() != '\n');
        assert(s.drop_first() =~= l1 + seq!['\n'] + rest);
        let inner = split_lines_text(l1 + seq!['\n'] + rest);
        assert(inner == seq![l1] + split_lines_text(rest));
        assert(inner.len() > 0);
        assert(inner.first() == l1);
        assert(seq![s.first()] + inner.first() =~= l0);
        assert(inner.drop_first() =~= split_lines_text(rest));
        assert(split_lines_text(s) =~= seq![l0] + split_lines_text(rest));
    }
}

/// Round trip: joining recorded lines with newlines and splitting the
/// result on newlines returns exactly the recorded lines, provided no
/// recorded line itself contains a newline.
pub proof fn lemma_split_joined_roundtrip(lines: Seq<Seq<char>>)
    requires
        forall|i: int, k: int|
            0 <= i < lines.len() && 0 <= k < lines[i].len() ==> #[trigger] lines[i][k] != '\n',
    ensures
        split_lines_text(joined_output(lines)) == lines,
    decreases lines.len(),
{
    if lines.len() == 0 {
        assert(split_lines_text(joined_output(lines)) =~= lines);
    } else {
        lemma_joined_first(lines);
        assert(forall|i: int, k: int|
            0 <= i < lines.drop_first().len() && 0 <= k < lines.drop_first()[i].len()
                ==> #[trigger] lines.drop_first()[i][k] != '\n');
        lemma_split_joined_roundtrip(lines.drop_first());
        assert(forall|k: int| 0 <= k < lines.first().len() ==> lines.first()[k] != '\n');
        lemma_split_prepend_line(lines.first(), joined_output(lines.drop_first()));
        assert(seq![lines.first()] + lines.drop_first() =~= lines);
    }
}

impl CommandResult {
    /// Reconstruct the captured standard output: every line followed by a
    /// newline, exactly as the subprocess wrote it.
    pub fn captured_stdout(&self) -> (r: String)
        ensures
            r@ == joined_output(self.lines.deep_view()),
    {
        let mut s = String::new();
        let n = self.lines.len();
        let mut i: usize = 0;
        assert(self.lines.deep_view().take(0) =~= Seq::<Seq<char>>::empty());
        while i < n
            invariant
                n == self.lines.len(),
                i <= n,
                s@ == joined_output(self.lines.deep_view().take(i as int)),
            decreases n - i,
        {
            s.append(self.lines[i].as_str());
            crate::text::push_char(&mut s, '\n');
            proof {
                let dv = self.lines.deep_view();
                assert(dv.take(i + 1).drop_last() =~= dv.take(i as int));
                assert(dv.take(i + 1).last() == dv[i as int]);
                assert(dv[i as int] == self.lines[i as int]@);
                assert(s@ =~= joined_output(dv.take(i + 1)));
            }
            i += 1;
        }
        assert(self.lines.deep_view().take(n as int) =~= self.lines.deep_view());
        s
    }
}

/// Split captured output on newlines, closing the last line at a trailing
/// newline: the inverse of [`CommandResult::captured_stdout`] on logs whose
/// lines contain no newline.
pub fn split_lines(s: &str) -> (r: Vec<String>)
    ensures
        r.deep_view() == split_lines_text(s@),
{
    let v = crate::text::chars_of(s);
    let n = v.len();
    let mut r: Vec<String> = Vec::new();
    let mut start: usize = 0;
    proof {
        assert(v@.subrange(0, n as int) =~= s@);
        assert(r.deep_view() =~= Seq::<Seq<char>>::empty());
        assert(r.deep_view() + split_lines_text(v@.subrange(0, n as int)) =~= split_lines_text(
            s@,
        ));
    }
    while start < n
        invariant
            n == v@.len(),
            v@ == s@,
            start <= n,
            split_lines_text(s@) == r.deep_view() + split_lines_text(
                v@.subrange(start as int, n as int),
            ),
        decreases n - start,
    {
        let mut i: usize = start;
        while i < n && !char_is_newline(v[i])
            invariant
                n == v@.len(),
                start <= i <= n,
                forall|k: int| start <= k < i ==> v@[k] != '\n',
            decreases n - i,
        {
            i += 1;
        }
        let line = crate::text::copy_range(&v, start, i);
        let owned = crate::text::string_of(&line);
        proof {
            let tail = v@.subrange(start as int, n as int);
            let l0 = v@.subrange(start as int, i as int);
            if i < n {
                assert(v@[i as int] == '\n');
                assert(tail =~= l0 + seq!['\n'] + v@.subrange(i + 1, n as int));
                lemma_split_prepend_line(l0, v@.subrange(i + 1, n as int));
            } else {
                assert(tail =~= l0);
                lemma_split_no_newline(l0);
            }
        }
        r.push(owned);
        proof {
            let old_dv = r.deep_view().drop_last();
            assert(r.deep_view() =~= old_dv.push(v@.subrange(start as int, i as int)));
        }
        if i < n {
            start = i + 1;
        } else {
            start = i;
            proof {
                assert(v@.subrange(start as int, n as int).len() == 0);
            }
        }
        proof {
            assert(split_lines_text(s@) =~= r.deep_view() + split_lines_text(
                v@.subrange(start as int, n as int),
            ));
        }
    }
    assert(v@.subrange(start as int, n as int) =~= Seq::<char>::empty());
    assert(r.deep_view() =~= split_lines_text(s@));
    r
}

fn char_is_newline(c: char) -> (r: bool)
    ensures
        r == (c == '\n'),
{
    c == '\n'
}

/// A nonempty chunk without newlines splits into itself alone.
proof fn lemma_split_no_newline(l0: Seq<char>)
    requires
        l0.len() > 0,
        forall|k: int| 0 <= k < l0.len() ==> l0[k] != '\n',
    ensures
        split_lines_text(l0) == seq![l0],
    decreases l0.len(),
{
    if l0.len() == 1 {
        assert(split_lines_text(l0.drop_first()).len() == 0);
    } else {
        lemma_split_no_newline(l0.drop_first());
        assert(seq![l0.first()] + l0.drop_first() =~= l0);
        assert(split_lines_text(l0) =~= seq![l0]);
    }
}

/// Streaming monitor for one scan session.
pub struct Monitor {
    /// Lifecycle state.
    pub phase: MonitorPhase,
    /// Raw output log: every line, in arrival order.
    pub log: Vec<String>,
    /// Sticky progress state.
    pub reporter: Reporter,
    /// End-of-stream has been observed on the subprocess's output.
    pub eof: bool,
    /// Exit disposition, once the subprocess has terminated.
    pub exit_success: Option<bool>,
}

impl Monitor {
    /// State-machine invariant.
    pub open spec fn wf(&self) -> bool {
        &&& self.reporter.wf()
        &&& (self.phase is Launching ==> !self.eof && self.exit_success is None && self.log@.len()
            == 0)
        &&& (self.phase is Running ==> !self.eof)
        &&& (self.phase is Draining ==> self.eof && self.exit_success is None)
        &&& (self.phase is Completed ==> self.eof && self.exit_success is Some)
    }

    /// Fresh monitor, before the subprocess is spawned.
    pub fn new() -> (m: Monitor)
        ensures
            m.wf(),
            m.phase is Launching,
            m.log.deep_view() == Seq::<Seq<char>>::empty(),
            m.reporter.phase@ == Seq::<char>::empty(),
            m.reporter.percent is None,
            !m.eof,
            m.exit_success is None,
    {
        let m = Monitor {
            phase: MonitorPhase::Launching,
            log: Vec::new(),
            reporter: Reporter::new(),
            eof: false,
            exit_success: None,
        };
        assert(m.log.deep_view() =~= Seq::<Seq<char>>::empty());
        m
    }

    /// The subprocess was spawned and its output handle obtained.
    pub fn mark_launched(&mut self)
        requires
            old(self).wf(),
            old(self).phase is Launching,
        ensures
            final(self).wf(),
            final(self).phase is Running,
            final(self).log == old(self).log,
            final(self).reporter == old(self).reporter,
            !final(self).eof,
            final(self).exit_success is None,
    {
        self.phase = MonitorPhase::Running;
    }

    /// Spawning failed: the session completes immediately with a failed
    /// disposition and an empty log.
    pub fn mark_launch_failed(&mut self)
        requires
            old(self).wf(),
            old(self).phase is Launching,
        ensures
            final(self).wf(),
            final(self).phase is Completed,
            final(self).log == old(self).log,
            final(self).reporter == old(self).reporter,
            final(self).exit_success == Some(false),
    {
        self.phase = MonitorPhase::Completed;
        self.eof = true;
        self.exit_success = Some(false);
    }

    /// Record one output line and push it through the classifier and
    /// reporter; the returned update, if any, is for the display sink.
    pub fn observe_line(&mut self, line: &str, elapsed_secs: u64) -> (r: Option<ProgressUpdate>)
        requires
            old(self).wf(),
            old(self).phase is Running,
        ensures
            final(self).wf(),
            final(self).phase is Running,
            final(self).log@.len() == old(self).log@.len() + 1,
            final(self).log.deep_view() == old(self).log.deep_view().push(line@),
            reporter_step(old(self).reporter, final(self).reporter, line@),
            update_reflects(final(self).reporter, r, line@, elapsed_secs),
            final(self).eof == old(self).eof,
            final(self).exit_success == old(self).exit_success,
    {
        self.log.push(line.to_owned());
        proof {
            assert(self.log.deep_view() =~= old(self).log.deep_view().push(line@));
        }
        self.reporter.observe(line, elapsed_secs)
    }

    /// Record a whole ordered sequence of output lines.  The final log is
    /// a function of the starting log and the lines alone: replaying the
    /// same lines yields the same log, in the same order.
    pub fn record_all(&mut self, lines: &Vec<String>, elapsed_secs: u64)
        requires
            old(self).wf(),
            old(self).phase is Running,
        ensures
            final(self).wf(),
            final(self).phase is Running,
            final(self).log.deep_view() == old(self).log.deep_view() + lines.deep_view(),
            final(self).eof == old(self).eof,
            final(self).exit_success == old(self).exit_success,
    {
        let n = lines.len();
        let mut i: usize = 0;
        assert(old(self).log.deep_view() + lines.deep_view().take(0) =~= old(
            self,
        ).log.deep_view());
        while i < n
            invariant
                self.wf(),
                self.phase is Running,
                n == lines.len(),
                i <= n,
                self.log.deep_view() == old(self).log.deep_view() + lines.deep_view().take(
                    i as int,
                ),
                self.eof == old(self).eof,
                self.exit_success == old(self).exit_success,
            decreases n - i,
        {
            let _ = self.observe_line(lines[i].as_str(), elapsed_secs);
            proof {
                assert(lines.deep_view().take(i + 1) =~= lines.deep_view().take(i as int).push(
                    lines[i as int]@,
                ));
                assert(self.log.deep_view() =~= old(self).log.deep_view()
                    + lines.deep_view().take(i + 1));
            }
            i += 1;
        }
        assert(lines.deep_view().take(n as int) =~= lines.deep_view());
    }

    /// End-of-stream was observed on the subprocess's output.
    pub fn end_of_stream(&mut self)
        requires
            old(self).wf(),
            old(self).phase is Running,
        ensures
            final(self).wf(),
            final(self).eof,
            final(self).log == old(self).log,
            final(self).reporter == old(self).reporter,
            final(self).exit_success == old(self).exit_success,
            final(self).phase == if old(self).exit_success is Some {
                MonitorPhase::Completed
            } else {
                MonitorPhase::Draining
            },
    {
        self.eof = true;
        match self.exit_success {
            Some(_) => {
                self.phase = MonitorPhase::Completed;
            },
            None => {
                self.phase = MonitorPhase::Draining;
            },
        }
    }

    /// The subprocess's exit status was obtained.
    pub fn set_exit(&mut self, success: bool)
        requires
            old(self).wf(),
            old(self).phase is Running || old(self).phase is Draining,
            old(self).exit_success is None,
        ensures
            final(self).wf(),
            final(self).exit_success == Some(success),
            final(self).log == old(self).log,
            final(self).reporter == old(self).reporter,
            final(self).eof == old(self).eof,
            final(self).phase == if old(self).eof {
                MonitorPhase::Completed
            } else {
                old(self).phase
            },
    {
        self.exit_success = Some(success);
        if self.eof {
            self.phase = MonitorPhase::Completed;
        }
    }

    /// Final disposition: success iff the subprocess's own exit status said
    /// so, plus the full ordered output log.
    pub fn result(&self) -> (r: CommandResult)
        requires
            self.wf(),
            self.phase is Completed,
        ensures
            r.success == self.exit_success.unwrap(),
            r.lines@.len() == self.log@.len(),
            r.lines.deep_view() == self.log.deep_view(),
    {
        let success = match self.exit_success {
            Some(b) => b,
            None => false,
        };
        let n = self.log.len();
        let mut lines: Vec<String> = Vec::new();
        let mut i: usize = 0;
        assert(lines.deep_view() =~= self.log.deep_view().take(0));
        while i < n
            invariant
                n == self.log.len(),
                i <= n,
                lines.deep_view() == self.log.deep_view().take(i as int),
            decreases n - i,
        {
            let cl = self.log[i].clone();
            proof {
                assert(cl@ == self.log.deep_view()[i as int]);
            }
            let ghost pre_dv = lines.deep_view();
            lines.push(cl);
            proof {
                assert(lines.deep_view() =~= pre_dv.push(cl@));
                assert(self.log.deep_view().take(i + 1) =~= pre_dv.push(cl@));
            }
            i += 1;
        }
        assert(self.log.deep_view().take(n as int) =~= self.log.deep_view());
        CommandResult { success, lines }
    }
}

} // verus!
