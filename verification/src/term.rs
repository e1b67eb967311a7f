//! The command box: one command session per window, each running at most one
//! command at a time, with the events that report its output and its end.

use vstd::prelude::*;
use std::collections::HashMap;
use crate::launch::nonblank;
use crate::text::{chars_of, trim, trim_range, Strip};

verus! {

broadcast use {
    vstd::std_specs::hash::group_hash_axioms,
    vstd::std_specs::hash::axiom_u32_obeys_hash_table_key_model,
    vstd::std_specs::hash::axiom_random_state_builds_valid_hashers,
};

/// The command session of one window; `C` is the handle of a running command.
pub struct TermState<C> {
    pub child: Option<C>,
    /// The number of the last command started in this window.
    pub run_id: u64,
}

impl<C> TermState<C> {
    /// No command yet.
    pub fn new() -> (res: Self)
        ensures
            res.child is None,
            res.run_id == 0,
    {
        TermState { child: None, run_id: 0 }
    }
}

impl<C> Default for TermState<C> {
    fn default() -> (res: Self)
        ensures
            res.child is None,
            res.run_id == 0,
    {
        TermState::new()
    }
}

/// A line that a command wrote, for the window `win_id`.
pub struct TermOutput {
    pub win_id: u32,
    pub run_id: u64,
    pub stream: String,
    pub text: String,
}

/// The end of a command in the window `win_id`: its exit code, or none when it was
/// cancelled or could not be waited on.
pub struct TermExit {
    pub win_id: u32,
    pub run_id: u64,
    pub code: Option<i32>,
    pub cancelled: bool,
}

/// The end event of command `run_id` in window `win_id`; a command without an exit
/// code counts as cancelled.
pub fn term_exit(win_id: u32, run_id: u64, code: Option<i32>) -> (res: TermExit)
    ensures
        res.win_id == win_id,
        res.run_id == run_id,
        res.code == code,
        res.cancelled == code is None,
{
    TermExit { win_id, run_id, code, cancelled: code.is_none() }
}

/// The error for an empty command.
pub open spec fn empty_command_text() -> Seq<char> {
    "命令为空"@
}

/// The error for a command while another runs in the same window.
pub open spec fn busy_text() -> Seq<char> {
    "已有命令正在运行，请等待完成或先停止"@
}

/// The error for a command while another runs in the same window.
pub fn busy_error() -> (res: String)
    ensures
        res@ == busy_text(),
{
    String::from_str("已有命令正在运行，请等待完成或先停止")
}

/// The command to run: the text typed, trimmed; an error when that is empty.
pub fn command_to_run(command: &str) -> (res: Result<String, String>)
    ensures
        nonblank(Some(command@)) matches Some(c) ==> (res matches Ok(r) && r@ == c),
        nonblank(Some(command@)) is None ==> (res matches Err(e) && e@ == empty_command_text()),
{
    let v = chars_of(command);
    let (a, b) = trim_range(&v, 0, v.len(), Strip::Whitespace);
    assert(v@.subrange(0, v@.len() as int) =~= command@);
    if a == b {
        Err(String::from_str("命令为空"))
    } else {
        Ok(String::from_str(command.substring_char(a, b)))
    }
}

/// The command sessions of all windows, by window id.
pub struct TermSessions<C> {
    pub sessions: HashMap<u32, TermState<C>>,
}

impl<C> TermSessions<C> {
    /// The sessions as a map from window id.
    pub open spec fn map(&self) -> Map<u32, TermState<C>> {
        self.sessions@
    }

    /// Whether a command runs in window `win_id`.
    pub open spec fn busy(&self, win_id: u32) -> bool {
        self.map().contains_key(win_id) && self.map()[win_id].child is Some
    }

    /// The number of the last command started in window `win_id` (0 before any).
    pub open spec fn last_run(&self, win_id: u32) -> u64 {
        if self.map().contains_key(win_id) {
            self.map()[win_id].run_id
        } else {
            0
        }
    }

    /// No sessions.
    pub fn new() -> (res: Self)
        ensures
            res.map() == Map::<u32, TermState<C>>::empty(),
    {
        TermSessions { sessions: HashMap::new() }
    }

    /// The number of the last command started in window `win_id` (0 before any).
    pub fn run_id(&self, win_id: u32) -> (res: u64)
        ensures
            res == self.last_run(win_id),
    {
        match self.sessions.get(&win_id) {
            Some(st) => st.run_id,
            None => 0,
        }
    }

    /// Opens the session of window `win_id` if it has none, and tells whether a
    /// command runs there.
    pub fn open_session(&mut self, win_id: u32) -> (busy: bool)
        ensures
            busy == old(self).busy(win_id),
            final(self).map() == (if old(self).map().contains_key(win_id) {
                old(self).map()
            } else {
                old(self).map().insert(win_id, TermState { child: None, run_id: 0 })
            }),
    {
        match self.sessions.remove(&win_id) {
            Some(st) => {
                let busy = st.child.is_some();
                self.sessions.insert(win_id, st);
                proof {
                    assert(self.map() =~= old(self).map());
                }
                busy
            },
            None => {
                self.sessions.insert(win_id, TermState::new());
                false
            },
        }
    }

    /// Records the command `child` started in window `win_id`; returns its number, one
    /// more than the last.
    pub fn record_run(&mut self, win_id: u32, child: C) -> (run_id: u64)
        requires
            old(self).last_run(win_id) < u64::MAX,
        ensures
            run_id == old(self).last_run(win_id) + 1,
            final(self).map() == started(old(self).map(), win_id, child, run_id),
    {
        let last = match self.sessions.remove(&win_id) {
            Some(st) => st.run_id,
            None => 0,
        };
        let run_id = last + 1;
        self.sessions.insert(win_id, TermState { child: Some(child), run_id });
        proof {
            assert(self.map() =~= old(self).map().insert(
                win_id,
                TermState { child: Some(child), run_id },
            ));
        }
        run_id
    }

    /// The command of window `win_id` has ended: the session keeps its number and holds
    /// no command.
    pub fn finish_run(&mut self, win_id: u32)
        ensures
            final(self).map() == finished(old(self).map(), win_id),
    {
        match self.sessions.remove(&win_id) {
            Some(st) => {
                self.sessions.insert(win_id, TermState { child: None, run_id: st.run_id });
                proof {
                    assert(self.map() =~= old(self).map().insert(
                        win_id,
                        TermState { child: None, run_id: old(self).map()[win_id].run_id },
                    ));
                }
            },
            None => {},
        }
    }

    /// The command running in window `win_id`, if any.
    pub fn running(&self, win_id: u32) -> (res: Option<&C>)
        ensures
            res is Some == self.busy(win_id),
            res is Some ==> *res->0 == self.map()[win_id].child->0,
    {
        match self.sessions.get(&win_id) {
            Some(st) => st.child.as_ref(),
            None => None,
        }
    }
}

/// The output event for a line that command `run_id` of window `win_id` wrote on
/// `stream`; blank lines are not sent.
pub fn output_event(win_id: u32, run_id: u64, stream: &str, line: String) -> (res: Option<
    TermOutput,
>)
    ensures
        trim(line@).len() == 0 ==> res is None,
        trim(line@).len() > 0 ==> (res matches Some(o) && o.win_id == win_id && o.run_id == run_id
            && o.stream@ == stream@ && o.text@ == line@),
{
    let v = chars_of(line.as_str());
    let (a, b) = trim_range(&v, 0, v.len(), Strip::Whitespace);
    assert(v@.subrange(0, v@.len() as int) =~= line@);
    if a == b {
        return None;
    }
    Some(TermOutput { win_id, run_id, stream: String::from_str(stream), text: line })
}

/// What waiting on a window's command gave.
#[derive(Clone, Copy, Debug, PartialEq, Eq, Structural)]
pub enum Waited {
    /// The command ended, with its exit code if it has one.
    Exited(Option<i32>),
    /// The command still runs.
    Running,
    /// Waiting on it failed.
    Failed,
    /// The window holds no command.
    Gone,
}

impl<C> TermSessions<C> {
    /// Applies one wait on the command of window `win_id`: an ended or failed command
    /// is dropped from its session. Returns the exit code (none when cancelled, failed or
    /// gone) once the watch is over, or nothing while the command runs.
    pub fn settle(&mut self, win_id: u32, waited: Waited) -> (res: Option<Option<i32>>)
        ensures
            res == (match waited {
                Waited::Exited(code) => Some(code),
                Waited::Running => None,
                Waited::Failed => Some(None::<i32>),
                Waited::Gone => Some(None::<i32>),
            }),
            final(self).map() == (match waited {
                Waited::Exited(_) => finished(old(self).map(), win_id),
                Waited::Failed => finished(old(self).map(), win_id),
                _ => old(self).map(),
            }),
    {
        match waited {
            Waited::Exited(code) => {
                self.finish_run(win_id);
                Some(code)
            },
            Waited::Running => None,
            Waited::Failed => {
                self.finish_run(win_id);
                Some(None)
            },
            Waited::Gone => Some(None),
        }
    }
}

/// The sessions after command `run_id`, handled by `child`, started in window `win_id`.
pub open spec fn started<C>(m: Map<u32, TermState<C>>, win_id: u32, child: C, run_id: u64) -> Map<
    u32,
    TermState<C>,
> {
    m.insert(win_id, TermState { child: Some(child), run_id })
}

/// The sessions after the command of window `win_id` ended.
pub open spec fn finished<C>(m: Map<u32, TermState<C>>, win_id: u32) -> Map<u32, TermState<C>> {
    if m.contains_key(win_id) {
        m.insert(win_id, TermState { child: None, run_id: m[win_id].run_id })
    } else {
        m
    }
}

/// A window runs one command at a time, numbered one after the last: once started, the
/// window is busy with that command; once it ended, the window is free again and keeps
/// the command's number; other windows are untouched throughout.
pub proof fn law_command_cycle<C>(
    m: Map<u32, TermState<C>>,
    win_id: u32,
    other: u32,
    child: C,
    run_id: u64,
)
    ensures
        started(m, win_id, child, run_id)[win_id].child == Some(child),
        finished(started(m, win_id, child, run_id), win_id)[win_id].child is None,
        finished(started(m, win_id, child, run_id), win_id)[win_id].run_id == run_id,
        other != win_id ==> finished(started(m, win_id, child, run_id), win_id).contains_key(other)
            == m.contains_key(other),
        other != win_id && m.contains_key(other) ==> finished(
            started(m, win_id, child, run_id),
            win_id,
        )[other] == m[other],
{
}

} // verus!
