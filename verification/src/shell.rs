//! The desktop shell's own decisions: which windows hide instead of closing, and
//! what the tray menu's entries do.

use vstd::prelude::*;
use crate::text::{chars_of, range_equals};

verus! {

/// Whether the text `s` is `lit`.
fn text_is(s: &str, lit: &str) -> (res: bool)
    ensures
        res == (s@ == lit@),
{
    let v = chars_of(s);
    let w = chars_of(lit);
    let r = range_equals(&v, 0, v.len(), &w);
    assert(v@.subrange(0, v@.len() as int) =~= s@);
    r
}

/// Whether closing the window labelled `label` only hides it: the main window and the
/// control drawer stay alive in the background.
pub fn hides_on_close(label: &str) -> (res: bool)
    ensures
        res == (label@ == "main"@ || label@ == "control"@),
{
    text_is(label, "main") || text_is(label, "control")
}

/// What an entry of the tray menu does.
#[derive(Clone, Copy, Debug, PartialEq, Eq, Structural)]
pub enum TrayAction {
    ToggleControl,
    StartService,
    StopService,
    Quit,
    Ignore,
}

/// What the tray menu entry with id `id` does.
pub fn tray_action(id: &str) -> (res: TrayAction)
    ensures
        res == (if id@ == "toggle-control"@ {
            TrayAction::ToggleControl
        } else if id@ == "start-dsh"@ {
            TrayAction::StartService
        } else if id@ == "stop-dsh"@ {
            TrayAction::StopService
        } else if id@ == "quit"@ {
            TrayAction::Quit
        } else {
            TrayAction::Ignore
        }),
{
    if text_is(id, "toggle-control") {
        TrayAction::ToggleControl
    } else if text_is(id, "start-dsh") {
        TrayAction::StartService
    } else if text_is(id, "stop-dsh") {
        TrayAction::StopService
    } else if text_is(id, "quit") {
        TrayAction::Quit
    } else {
        TrayAction::Ignore
    }
}

} // verus!
