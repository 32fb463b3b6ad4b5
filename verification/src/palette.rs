//! The colour that stands for a state, a severity or an action.

use vstd::prelude::*;
use crate::service::{SystemdUnit, UnitAction};
use crate::text::str_eq;

verus! {

/// A colour of the terminal.
#[derive(Debug, Clone, Copy, PartialEq, Eq, Structural)]
pub enum Color {
    Red,
    Green,
    Yellow,
    Cyan,
    Magenta,
    White,
    DarkGray,
    /// A gray that stays readable on the highlight of a selected row.
    Muted,
}

/// The colour of what is inactive.
pub const COLOR_MUTED: Color = Color::Muted;

/// The colour of a sub-state.
pub open spec fn status_color_of(sub: Seq<char>) -> Color {
    if sub == "running"@ || sub == "listening"@ || sub == "active"@ {
        Color::Green
    } else if sub == "exited"@ || sub == "elapsed"@ {
        Color::Yellow
    } else if sub == "dead"@ || sub == "stopped"@ || sub == "inactive"@ {
        COLOR_MUTED
    } else if sub == "failed"@ {
        Color::Red
    } else if sub == "waiting"@ {
        Color::Cyan
    } else {
        Color::White
    }
}

/// The colour of a severity, and whether it is shown in bold: red for
/// errors and worse, bold for what is worse than an error, and calmer
/// colours below.
pub open spec fn priority_color_of(p: u8) -> (Color, bool) {
    if p <= 2 {
        (Color::Red, true)
    } else if p == 3 {
        (Color::Red, false)
    } else if p == 4 {
        (Color::Yellow, false)
    } else if p == 5 {
        (Color::Cyan, false)
    } else if p == 7 {
        (Color::DarkGray, false)
    } else {
        (Color::White, false)
    }
}

/// The colour of an enablement.
pub open spec fn file_state_color_of(state: Seq<char>) -> Color {
    if state == "enabled"@ {
        Color::Green
    } else if state == "disabled"@ {
        Color::Yellow
    } else if state == "static"@ {
        COLOR_MUTED
    } else if state == "masked"@ {
        Color::Red
    } else if state == "indirect"@ {
        Color::Cyan
    } else {
        Color::White
    }
}

/// The colour of a load state.
pub open spec fn load_color_of(state: Seq<char>) -> Color {
    if state == "loaded"@ {
        Color::Green
    } else if state == "masked"@ || state == "error"@ || state == "bad-setting"@ {
        Color::Red
    } else if state == "not-found"@ {
        COLOR_MUTED
    } else {
        Color::White
    }
}

/// The colour of an action.
pub open spec fn action_color_of(action: UnitAction) -> Color {
    match action {
        UnitAction::Start => Color::Green,
        UnitAction::Stop => Color::Red,
        UnitAction::Restart => Color::Yellow,
        UnitAction::Reload => Color::Cyan,
        UnitAction::Enable => Color::Green,
        UnitAction::Disable => Color::Yellow,
        UnitAction::DaemonReload => Color::Magenta,
    }
}

/// The colour of an entry of the status picker: that of the sub-state, and
/// cyan for the entry that stands for no filter.
pub open spec fn status_option_color_of(option: Seq<char>) -> Color {
    if option == "All"@ {
        Color::Cyan
    } else if option == "stopped"@ {
        Color::White
    } else {
        status_color_of(option)
    }
}

fn sub_state_color(sub: &str) -> (r: Color)
    ensures
        r == status_color_of(sub@),
{
    if str_eq(sub, "running") || str_eq(sub, "listening") || str_eq(sub, "active") {
        Color::Green
    } else if str_eq(sub, "exited") || str_eq(sub, "elapsed") {
        Color::Yellow
    } else if str_eq(sub, "dead") || str_eq(sub, "stopped") || str_eq(sub, "inactive") {
        COLOR_MUTED
    } else if str_eq(sub, "failed") {
        Color::Red
    } else if str_eq(sub, "waiting") {
        Color::Cyan
    } else {
        Color::White
    }
}

impl SystemdUnit {
    /// The colour of the unit's sub-state.
    pub fn status_color(&self) -> (r: Color)
        ensures
            r == status_color_of(self.sub@),
    {
        sub_state_color(self.sub.as_str())
    }
}

/// The colour of a severity, and whether it is shown in bold.
pub fn priority_color(p: u8) -> (r: (Color, bool))
    ensures
        r == priority_color_of(p),
{
    if p <= 2 {
        (Color::Red, true)
    } else if p == 3 {
        (Color::Red, false)
    } else if p == 4 {
        (Color::Yellow, false)
    } else if p == 5 {
        (Color::Cyan, false)
    } else if p == 7 {
        (Color::DarkGray, false)
    } else {
        (Color::White, false)
    }
}

/// The colour of an enablement.
pub fn file_state_color(state: &str) -> (r: Color)
    ensures
        r == file_state_color_of(state@),
{
    if str_eq(state, "enabled") {
        Color::Green
    } else if str_eq(state, "disabled") {
        Color::Yellow
    } else if str_eq(state, "static") {
        COLOR_MUTED
    } else if str_eq(state, "masked") {
        Color::Red
    } else if str_eq(state, "indirect") {
        Color::Cyan
    } else {
        Color::White
    }
}

/// The colour of a load state.
pub fn load_color(state: &str) -> (r: Color)
    ensures
        r == load_color_of(state@),
{
    if str_eq(state, "loaded") {
        Color::Green
    } else if str_eq(state, "masked") || str_eq(state, "error") || str_eq(state, "bad-setting") {
        Color::Red
    } else if str_eq(state, "not-found") {
        COLOR_MUTED
    } else {
        Color::White
    }
}

/// The colour of an action.
pub fn action_color(action: &UnitAction) -> (r: Color)
    ensures
        r == action_color_of(*action),
{
    match action {
        UnitAction::Start => Color::Green,
        UnitAction::Stop => Color::Red,
        UnitAction::Restart => Color::Yellow,
        UnitAction::Reload => Color::Cyan,
        UnitAction::Enable => Color::Green,
        UnitAction::Disable => Color::Yellow,
        UnitAction::DaemonReload => Color::Magenta,
    }
}

/// The colour of an entry of the status picker.
pub fn status_option_color(option: &str) -> (r: Color)
    ensures
        r == status_option_color_of(option@),
{
    if str_eq(option, "All") {
        Color::Cyan
    } else if str_eq(option, "stopped") {
        Color::White
    } else {
        sub_state_color(option)
    }
}

} // verus!
