//! The theme on its own: reading and following `ui-theme` → `preference` alone.

use vstd::prelude::*;
use crate::prefs::{
    find_value, follow, follow_step, opt_str_view, parse_value, read_preference, theme_event_view,
};
use crate::text::opt_view;

pub use crate::prefs::ThemePreference;

verus! {

/// Reads `preference` under the top-level `ui-theme:` section.
pub fn parse_preference(content: &str) -> (res: Option<String>)
    ensures
        opt_view(res) == find_value(content@, "ui-theme"@, "preference"@),
{
    parse_value(content, "ui-theme", "preference")
}

/// What the theme follower last saw.
pub struct ThemeWatch {
    pub last: Option<String>,
}

impl ThemeWatch {
    /// Nothing seen yet.
    pub fn new() -> (res: Self)
        ensures
            res.last is None,
    {
        ThemeWatch { last: None }
    }

    /// Takes one reading of the settings file (`None` when it could not be read) and
    /// returns the theme to send when it changed (`"system"` when unset).
    pub fn observe(&mut self, content: Option<&str>) -> (res: Option<ThemePreference>)
        ensures
            (opt_view(final(self).last), theme_event_view(res)) == follow(
                opt_view(old(self).last),
                read_preference(opt_str_view(content), "ui-theme"@),
                "system"@,
            ),
    {
        let current = match content {
            Some(c) => parse_preference(c),
            None => None,
        };
        match follow_step(&mut self.last, current, "system") {
            Some(preference) => Some(ThemePreference { preference }),
            None => None,
        }
    }
}

} // verus!
