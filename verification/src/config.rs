//! The shell's settings and the remembered window placements.

use vstd::prelude::*;
use crate::text::opt_view;

verus! {

/// The port the service listens on unless configured otherwise.
pub const DEFAULT_PORT: u16 = 3080;

/// The shell's settings.
#[derive(Clone, Debug)]
pub struct AppConfig {
    /// The port of the service's web page.
    pub port: u16,
    /// A command that replaces the launch command; when blank, a globally installed
    /// `dsh` is used if there is one, else `npx`.
    pub dsh_command: Option<String>,
    /// The working directory that the command box and the native console share.
    pub work_dir: Option<String>,
    /// Whether quitting the shell stops the service (it keeps running by default).
    pub stop_on_exit: bool,
    /// A pinned version of the service, such as `0.1.0-rc.6`; only used with `npx`.
    pub dsh_version: Option<String>,
    /// Whether each window's size and position are remembered.
    pub remember_window_state: bool,
}

/// The value that a missing `rememberWindowState` takes.
pub fn default_true() -> (res: bool)
    ensures
        res,
{
    true
}

/// The user's home directory: `USERPROFILE`, else `HOME`, else `"."`.
pub fn home_or_dot(userprofile: Option<String>, home: Option<String>) -> (res: String)
    ensures
        res@ == (match opt_view(userprofile) {
            Some(u) => u,
            None => match opt_view(home) {
                Some(h) => h,
                None => "."@,
            },
        }),
{
    match userprofile {
        Some(u) => u,
        None => match home {
            Some(h) => h,
            None => String::from_str("."),
        },
    }
}

impl AppConfig {
    /// The default settings for a user whose home directory is `home`: port 3080, no
    /// command or version override, `home` as the working directory, the service kept
    /// running on exit, window placements remembered.
    pub fn with_home(home: String) -> (res: AppConfig)
        ensures
            res.port == DEFAULT_PORT,
            res.dsh_command is None,
            opt_view(res.work_dir) == Some(home@),
            !res.stop_on_exit,
            res.dsh_version is None,
            res.remember_window_state,
    {
        AppConfig {
            port: DEFAULT_PORT,
            dsh_command: None,
            work_dir: Some(home),
            stop_on_exit: false,
            dsh_version: None,
            remember_window_state: true,
        }
    }

    /// The settings as they are saved: a port of 0 becomes the default port; all else
    /// is kept.
    pub fn normalized(self) -> (res: AppConfig)
        ensures
            res.port == (if self.port == 0 {
                DEFAULT_PORT
            } else {
                self.port
            }),
            res.dsh_command == self.dsh_command,
            res.work_dir == self.work_dir,
            res.stop_on_exit == self.stop_on_exit,
            res.dsh_version == self.dsh_version,
            res.remember_window_state == self.remember_window_state,
    {
        let mut cfg = self;
        if cfg.port == 0 {
            cfg.port = DEFAULT_PORT;
        }
        cfg
    }

    /// The settings with `path` as the working directory; all else is kept.
    pub fn with_work_dir(self, path: String) -> (res: AppConfig)
        ensures
            opt_view(res.work_dir) == Some(path@),
            res.port == self.port,
            res.dsh_command == self.dsh_command,
            res.stop_on_exit == self.stop_on_exit,
            res.dsh_version == self.dsh_version,
            res.remember_window_state == self.remember_window_state,
    {
        let mut cfg = self;
        cfg.work_dir = Some(path);
        cfg
    }
}

/// The shared working directory: the configured one when it is an existing
/// directory (`configured_is_dir`), else `fallback`, the user's home directory.
pub fn resolve_work_dir(configured: Option<String>, configured_is_dir: bool, fallback: String) -> (res:
    String)
    ensures
        res@ == (match opt_view(configured) {
            Some(p) => if configured_is_dir {
                p
            } else {
                fallback@
            },
            None => fallback@,
        }),
{
    match configured {
        Some(p) => if configured_is_dir {
            p
        } else {
            fallback
        },
        None => fallback,
    }
}

/// The remembered placement of one window, by the id of its slot.
#[derive(Clone, Copy, Debug, PartialEq, Eq, Structural)]
pub struct WindowState {
    pub id: u32,
    pub x: Option<i32>,
    pub y: Option<i32>,
    pub width: Option<u32>,
    pub height: Option<u32>,
}

/// The index of the first placement of window `id` in `s`, or the length of `s`.
pub open spec fn position_of(s: Seq<WindowState>, id: u32) -> nat
    decreases s.len(),
{
    if s.len() == 0 {
        0
    } else if s[0].id == id {
        0
    } else {
        1 + position_of(s.drop_first(), id)
    }
}

pub proof fn lemma_position_of(s: Seq<WindowState>, id: u32)
    ensures
        position_of(s, id) <= s.len(),
        position_of(s, id) < s.len() ==> s[position_of(s, id) as int].id == id,
        forall|j: int| 0 <= j < position_of(s, id) ==> s[j].id != id,
    decreases s.len(),
{
    if s.len() > 0 && s[0].id != id {
        lemma_position_of(s.drop_first(), id);
        assert forall|j: int| 0 <= j < position_of(s, id) implies s[j].id != id by {
            if j > 0 {
                assert(s[j] == s.drop_first()[j - 1]);
            }
        }
    }
}

/// The remembered placement of window `id`: the first one stored for it.
pub open spec fn lookup(s: Seq<WindowState>, id: u32) -> Option<WindowState> {
    if position_of(s, id) < s.len() {
        Some(s[position_of(s, id) as int])
    } else {
        None
    }
}

/// The placements after saving `w`: it replaces the first placement of the same
/// window, or is appended when there is none.
pub open spec fn upserted(s: Seq<WindowState>, w: WindowState) -> Seq<WindowState> {
    if position_of(s, w.id) < s.len() {
        s.update(position_of(s, w.id) as int, w)
    } else {
        s.push(w)
    }
}

/// Saves the placement `state` over the first one of the same window, or appends it.
pub fn upsert_window_state(states: &mut Vec<WindowState>, state: WindowState)
    ensures
        final(states)@ == upserted(old(states)@, state),
{
    let ghost s0 = states@;
    proof {
        lemma_position_of(s0, state.id);
    }
    let mut i: usize = 0;
    while i < states.len()
        invariant
            states@ == s0,
            s0 == old(states)@,
            i <= states.len(),
            i <= position_of(s0, state.id),
            position_of(s0, state.id) <= s0.len(),
            position_of(s0, state.id) < s0.len() ==> s0[position_of(s0, state.id) as int].id
                == state.id,
            forall|j: int| 0 <= j < position_of(s0, state.id) ==> s0[j].id != state.id,
        decreases states.len() - i,
    {
        if states[i].id == state.id {
            assert(s0[i as int].id == state.id);
            assert(i == position_of(s0, state.id));
            states.set(i, state);
            assert(states@ =~= upserted(s0, state));
            return;
        }
        i = i + 1;
    }
    states.push(state);
}

/// Saving a placement and reading it back gives what was saved, and the placements
/// of other windows read as before.
pub proof fn law_window_state_read_after_write(s: Seq<WindowState>, w: WindowState, id: u32)
    ensures
        lookup(upserted(s, w), w.id) == Some(w),
        id != w.id ==> lookup(upserted(s, w), id) == lookup(s, id),
{
    let t = upserted(s, w);
    lemma_position_of(s, w.id);
    lemma_position_of(s, id);
    lemma_position_of(t, w.id);
    lemma_position_of(t, id);
    let p = position_of(s, w.id);
    // `t` agrees with `s` before `p` and holds `w` at `p`, so `w.id` is first found at `p`.
    assert(t[p as int] == w);
    if position_of(t, w.id) < p {
        assert(t[position_of(t, w.id) as int] == s[position_of(t, w.id) as int]);
    }
    if id != w.id {
        // Any other window is found where it was, or past the end in both.
        let q = position_of(s, id);
        if q < s.len() {
            assert(t[q as int] == s[q as int]);
        }
        if position_of(t, id) < t.len() && position_of(t, id) != p {
            assert(t[position_of(t, id) as int] == s[position_of(t, id) as int]);
        }
    }
}

/// Saving the same placement twice leaves what saving it once leaves.
pub proof fn law_window_state_idempotent(s: Seq<WindowState>, w: WindowState)
    ensures
        upserted(upserted(s, w), w) == upserted(s, w),
{
    law_window_state_read_after_write(s, w, w.id);
    let t = upserted(s, w);
    lemma_position_of(t, w.id);
    assert(t.update(position_of(t, w.id) as int, w) =~= t);
}

} // verus!
