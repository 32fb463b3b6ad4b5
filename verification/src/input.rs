//! Key and mouse routing: which step of the session a key press or a mouse
//! event stands for, given the mode the session is in. The decision is made
//! here; the caller carries the step out by calling the method of the
//! session state that the command names.

use vstd::prelude::*;
use crate::app::actions::ActionPhase;
use crate::app::App;

verus! {

/// A key, as far as the panel tells keys apart.
#[derive(Debug, Clone, Copy, PartialEq, Eq, Structural)]
pub enum Key {
    Char(char),
    Esc,
    Enter,
    Backspace,
    Up,
    Down,
    PageUp,
    PageDown,
    Home,
    End,
    Other,
}

/// A key press: the key, and whether the control key was held.
#[derive(Debug, Clone, Copy, PartialEq, Eq, Structural)]
pub struct KeyPress {
    pub key: Key,
    pub ctrl: bool,
}

/// The geometry of the current frame: how many lines each panel shows.
#[derive(Debug, Clone, Copy, PartialEq, Eq, Structural)]
pub struct Viewport {
    pub services_lines: usize,
    pub logs_lines: usize,
    pub details_lines: usize,
    pub unit_file_lines: usize,
}

/// The one mode that receives a key press. Where several overlays are
/// shown, the one listed first here receives it.
#[derive(Debug, Clone, Copy, PartialEq, Eq, Structural)]
pub enum Mode {
    Help,
    StatusPicker,
    TypePicker,
    PriorityPicker,
    TimePicker,
    FileStatePicker,
    ActionPicker,
    Confirm,
    Details,
    Search,
    UnitFileSearch,
    UnitFile,
    LogSearch,
    Logs,
    Units,
}

/// A step of the session that a key press or a mouse event asks for. Each
/// command but `Nothing` names one method of the session state; a number is
/// the amount or the count of visible lines that the method takes, a
/// character the one that was typed.
#[derive(Debug, Clone, Copy, PartialEq, Eq, Structural)]
pub enum Command {
    Nothing,
    ToggleHelp,
    CloseHelp,
    CloseStatusPicker,
    StatusPickerNext,
    StatusPickerPrevious,
    StatusPickerConfirm,
    CloseTypePicker,
    TypePickerNext,
    TypePickerPrevious,
    TypePickerConfirm,
    ClosePriorityPicker,
    PriorityPickerNext,
    PriorityPickerPrevious,
    PriorityPickerConfirm,
    CloseTimePicker,
    TimePickerNext,
    TimePickerPrevious,
    TimePickerConfirm,
    CloseFileStatePicker,
    FileStatePickerNext,
    FileStatePickerPrevious,
    FileStatePickerConfirm,
    CloseActionPicker,
    ActionPickerNext,
    ActionPickerPrevious,
    ActionPickerConfirm,
    ActionPickerShortcut(char),
    ConfirmYes,
    ConfirmNo,
    DismissActionResult,
    CloseDetails,
    DetailScrollUp(usize),
    DetailScrollDown(usize),
    StopSearch,
    EraseSearchChar,
    TypeSearchChar(char),
    Next,
    Previous,
    PageUp(usize),
    PageDown(usize),
    GoToTop,
    GoToBottom,
    SelectUnit(usize),
    StopUnitFileSearch,
    EraseUnitFileSearchChar,
    TypeUnitFileSearchChar(char),
    ScrollUnitFileUp(usize),
    ScrollUnitFileDown(usize),
    UnitFileTop,
    UnitFileBottom,
    ClearUnitFileSearch,
    CloseUnitFile,
    StartUnitFileSearch,
    NextUnitFileMatch(usize),
    PrevUnitFileMatch(usize),
    StopLogSearch,
    EraseLogSearchChar,
    TypeLogSearchChar(char),
    ScrollLogsUp(usize),
    ScrollLogsDown(usize),
    LogsTop,
    LogsBottom,
    LeaveLogs,
    ClearLogSearch,
    HideLogs,
    StartLogSearch,
    NextLogMatch(usize),
    PrevLogMatch(usize),
    OpenPriorityPicker,
    OpenTimePicker,
    OpenActionPicker,
    ToggleLiveTail,
    Quit,
    ToggleLogs,
    ClearSearch,
    StartSearch,
    Reload,
    ToggleUserMode,
    OpenStatusPicker,
    OpenTypePicker,
    OpenDetails,
    OpenFileStatePicker,
    OpenUnitFile,
    RequestDaemonReload,
}

/// The four steps of a picker.
#[derive(Debug, Clone, Copy, PartialEq, Eq, Structural)]
pub struct PickerCommands {
    pub close: Command,
    pub next: Command,
    pub previous: Command,
    pub confirm: Command,
}

/// What a key means in a picker that `close_key` closes: Esc and the close
/// key close it, Down and `j` move down, Up and `k` move up, Enter
/// confirms; any other key does nothing.
pub open spec fn picker_command(key: Key, close_key: char, steps: PickerCommands) -> Command {
    match key {
        Key::Esc => steps.close,
        Key::Down => steps.next,
        Key::Up => steps.previous,
        Key::Enter => steps.confirm,
        Key::Char(c) => if c == close_key {
            steps.close
        } else if c == 'j' {
            steps.next
        } else if c == 'k' {
            steps.previous
        } else {
            Command::Nothing
        },
        _ => Command::Nothing,
    }
}

/// What a key means in the action picker: as in any picker, closed by `x`,
/// and any other character picks the action it is the shortcut of.
pub open spec fn action_picker_command(key: Key) -> Command {
    match key {
        Key::Esc => Command::CloseActionPicker,
        Key::Down => Command::ActionPickerNext,
        Key::Up => Command::ActionPickerPrevious,
        Key::Enter => Command::ActionPickerConfirm,
        Key::Char(c) => if c == 'x' {
            Command::CloseActionPicker
        } else if c == 'j' {
            Command::ActionPickerNext
        } else if c == 'k' {
            Command::ActionPickerPrevious
        } else {
            Command::ActionPickerShortcut(c)
        },
        _ => Command::Nothing,
    }
}

/// What a key means in the confirmation dialog. While the action runs, Esc
/// dismisses the dialog without waiting for the result, and no other key
/// does anything. Once the action has settled, any key dismisses the
/// result. Before that, `y` runs the action and `n` or Esc declines it.
pub open spec fn confirm_command(key: Key, phase: ActionPhase) -> Command {
    match phase {
        ActionPhase::Executing => if key == Key::Esc {
            Command::DismissActionResult
        } else {
            Command::Nothing
        },
        ActionPhase::Settled => Command::DismissActionResult,
        _ => match key {
            Key::Esc => Command::ConfirmNo,
            Key::Char(c) => if c == 'y' || c == 'Y' {
                Command::ConfirmYes
            } else if c == 'n' || c == 'N' {
                Command::ConfirmNo
            } else {
                Command::Nothing
            },
            _ => Command::Nothing,
        },
    }
}

/// What a key means in the details overlay.
pub open spec fn details_command(key: Key) -> Command {
    match key {
        Key::Esc | Key::Enter => Command::CloseDetails,
        Key::Down => Command::DetailScrollDown(1),
        Key::Up => Command::DetailScrollUp(1),
        Key::Home => Command::DetailScrollUp(usize::MAX),
        Key::End => Command::DetailScrollDown(usize::MAX),
        Key::PageDown => Command::DetailScrollDown(10),
        Key::PageUp => Command::DetailScrollUp(10),
        Key::Char(c) => if c == 'i' {
            Command::CloseDetails
        } else if c == 'j' {
            Command::DetailScrollDown(1)
        } else if c == 'k' {
            Command::DetailScrollUp(1)
        } else if c == 'g' {
            Command::DetailScrollUp(usize::MAX)
        } else if c == 'G' {
            Command::DetailScrollDown(usize::MAX)
        } else {
            Command::Nothing
        },
        _ => Command::Nothing,
    }
}

/// What a key means while the unit filter is typed.
pub open spec fn search_command(key: Key, view: Viewport) -> Command {
    match key {
        Key::Esc | Key::Enter => Command::StopSearch,
        Key::Backspace => Command::EraseSearchChar,
        Key::Down => Command::Next,
        Key::Up => Command::Previous,
        Key::PageUp => Command::PageUp(view.services_lines),
        Key::PageDown => Command::PageDown(view.services_lines),
        Key::Char(c) => Command::TypeSearchChar(c),
        _ => Command::Nothing,
    }
}

/// What a key means while the search of the file viewer is typed.
pub open spec fn unit_file_search_command(key: Key, view: Viewport) -> Command {
    match key {
        Key::Esc | Key::Enter => Command::StopUnitFileSearch,
        Key::Backspace => Command::EraseUnitFileSearchChar,
        Key::PageUp => Command::ScrollUnitFileUp(view.unit_file_lines),
        Key::PageDown => Command::ScrollUnitFileDown(view.unit_file_lines),
        Key::Char(c) => Command::TypeUnitFileSearchChar(c),
        _ => Command::Nothing,
    }
}

/// What a key press means in the file viewer. `searching` says that the
/// viewer holds a search query: Esc and `q` then drop the search instead of
/// closing the viewer.
pub open spec fn unit_file_command(press: KeyPress, view: Viewport, searching: bool) -> Command {
    match press.key {
        Key::Esc => if searching {
            Command::ClearUnitFileSearch
        } else {
            Command::CloseUnitFile
        },
        Key::Down => Command::ScrollUnitFileDown(1),
        Key::Up => Command::ScrollUnitFileUp(1),
        Key::Home => Command::UnitFileTop,
        Key::End => Command::UnitFileBottom,
        Key::PageUp => Command::ScrollUnitFileUp(view.unit_file_lines),
        Key::PageDown => Command::ScrollUnitFileDown(view.unit_file_lines),
        Key::Char(c) => if c == 'v' {
            Command::CloseUnitFile
        } else if c == 'q' {
            if searching {
                Command::ClearUnitFileSearch
            } else {
                Command::CloseUnitFile
            }
        } else if c == '/' {
            Command::StartUnitFileSearch
        } else if c == 'n' {
            Command::NextUnitFileMatch(view.unit_file_lines)
        } else if c == 'N' {
            Command::PrevUnitFileMatch(view.unit_file_lines)
        } else if c == 'j' {
            Command::ScrollUnitFileDown(1)
        } else if c == 'k' {
            Command::ScrollUnitFileUp(1)
        } else if c == 'g' {
            Command::UnitFileTop
        } else if c == 'G' {
            Command::UnitFileBottom
        } else if c == 'u' && press.ctrl {
            Command::ScrollUnitFileUp(view.unit_file_lines / 2)
        } else if c == 'd' && press.ctrl {
            Command::ScrollUnitFileDown(view.unit_file_lines / 2)
        } else {
            Command::Nothing
        },
        _ => Command::Nothing,
    }
}

/// What a key means while the log search is typed.
pub open spec fn log_search_command(key: Key, view: Viewport) -> Command {
    match key {
        Key::Esc | Key::Enter => Command::StopLogSearch,
        Key::Backspace => Command::EraseLogSearchChar,
        Key::PageUp => Command::ScrollLogsUp(view.logs_lines),
        Key::PageDown => Command::ScrollLogsDown(view.logs_lines),
        Key::Char(c) => Command::TypeLogSearchChar(c),
        _ => Command::Nothing,
    }
}

/// What a key press means in the log panel. `searching` says that the panel
/// holds a search query: Esc and `q` then drop the search instead of hiding
/// the panel.
pub open spec fn logs_command(press: KeyPress, view: Viewport, searching: bool) -> Command {
    match press.key {
        Key::Esc => if searching {
            Command::ClearLogSearch
        } else {
            Command::HideLogs
        },
        Key::Down => Command::ScrollLogsDown(1),
        Key::Up => Command::ScrollLogsUp(1),
        Key::Home => Command::LogsTop,
        Key::End => Command::LogsBottom,
        Key::PageUp => Command::ScrollLogsUp(view.logs_lines),
        Key::PageDown => Command::ScrollLogsDown(view.logs_lines),
        Key::Char(c) => if c == 'l' {
            Command::LeaveLogs
        } else if c == 'q' {
            if searching {
                Command::ClearLogSearch
            } else {
                Command::HideLogs
            }
        } else if c == '/' {
            Command::StartLogSearch
        } else if c == 'n' {
            Command::NextLogMatch(view.logs_lines)
        } else if c == 'N' {
            Command::PrevLogMatch(view.logs_lines)
        } else if c == 'j' {
            Command::ScrollLogsDown(1)
        } else if c == 'k' {
            Command::ScrollLogsUp(1)
        } else if c == 'g' {
            Command::LogsTop
        } else if c == 'G' {
            Command::LogsBottom
        } else if c == 'u' && press.ctrl {
            Command::ScrollLogsUp(view.logs_lines / 2)
        } else if c == 'd' && press.ctrl {
            Command::ScrollLogsDown(view.logs_lines / 2)
        } else if c == 'p' {
            Command::OpenPriorityPicker
        } else if c == 't' {
            Command::OpenTimePicker
        } else if c == 'x' {
            Command::OpenActionPicker
        } else if c == 'f' {
            Command::ToggleLiveTail
        } else {
            Command::Nothing
        },
        _ => Command::Nothing,
    }
}

/// What a key means in the unit list. `searching` says that a text filter
/// is set: Esc then drops the filter instead of leaving the panel.
pub open spec fn units_command(key: Key, view: Viewport, searching: bool) -> Command {
    match key {
        Key::Esc => if searching {
            Command::ClearSearch
        } else {
            Command::Quit
        },
        Key::Down => Command::Next,
        Key::Up => Command::Previous,
        Key::Home => Command::GoToTop,
        Key::End => Command::GoToBottom,
        Key::Enter => Command::OpenDetails,
        Key::PageUp => Command::PageUp(view.services_lines),
        Key::PageDown => Command::PageDown(view.services_lines),
        Key::Char(c) => if c == 'q' {
            Command::Quit
        } else if c == 'l' {
            Command::ToggleLogs
        } else if c == '/' {
            Command::StartSearch
        } else if c == 'j' {
            Command::Next
        } else if c == 'k' {
            Command::Previous
        } else if c == 'g' {
            Command::GoToTop
        } else if c == 'G' {
            Command::GoToBottom
        } else if c == 'r' {
            Command::Reload
        } else if c == 'u' {
            Command::ToggleUserMode
        } else if c == 's' {
            Command::OpenStatusPicker
        } else if c == 't' {
            Command::OpenTypePicker
        } else if c == 'p' {
            Command::OpenPriorityPicker
        } else if c == 'T' {
            Command::OpenTimePicker
        } else if c == 'i' {
            Command::OpenDetails
        } else if c == 'f' {
            Command::OpenFileStatePicker
        } else if c == 'v' {
            Command::OpenUnitFile
        } else if c == 'x' {
            Command::OpenActionPicker
        } else if c == 'R' {
            Command::RequestDaemonReload
        } else {
            Command::Nothing
        },
        _ => Command::Nothing,
    }
}

/// The steps of the status picker.
pub open spec fn status_picker_steps() -> PickerCommands {
    PickerCommands {
        close: Command::CloseStatusPicker,
        next: Command::StatusPickerNext,
        previous: Command::StatusPickerPrevious,
        confirm: Command::StatusPickerConfirm,
    }
}

/// The steps of the category picker.
pub open spec fn type_picker_steps() -> PickerCommands {
    PickerCommands {
        close: Command::CloseTypePicker,
        next: Command::TypePickerNext,
        previous: Command::TypePickerPrevious,
        confirm: Command::TypePickerConfirm,
    }
}

/// The steps of the priority picker.
pub open spec fn priority_picker_steps() -> PickerCommands {
    PickerCommands {
        close: Command::ClosePriorityPicker,
        next: Command::PriorityPickerNext,
        previous: Command::PriorityPickerPrevious,
        confirm: Command::PriorityPickerConfirm,
    }
}

/// The steps of the time-range picker.
pub open spec fn time_picker_steps() -> PickerCommands {
    PickerCommands {
        close: Command::CloseTimePicker,
        next: Command::TimePickerNext,
        previous: Command::TimePickerPrevious,
        confirm: Command::TimePickerConfirm,
    }
}

/// The steps of the file-state picker.
pub open spec fn file_state_picker_steps() -> PickerCommands {
    PickerCommands {
        close: Command::CloseFileStatePicker,
        next: Command::FileStatePickerNext,
        previous: Command::FileStatePickerPrevious,
        confirm: Command::FileStatePickerConfirm,
    }
}

impl App {
    /// The mode that receives a key press.
    pub open spec fn mode(&self) -> Mode {
        if self.pickers.show_help {
            Mode::Help
        } else if self.pickers.show_status_picker {
            Mode::StatusPicker
        } else if self.pickers.show_type_picker {
            Mode::TypePicker
        } else if self.pickers.show_priority_picker {
            Mode::PriorityPicker
        } else if self.pickers.show_time_picker {
            Mode::TimePicker
        } else if self.pickers.show_file_state_picker {
            Mode::FileStatePicker
        } else if self.pickers.show_action_picker {
            Mode::ActionPicker
        } else if self.action.show_confirm {
            Mode::Confirm
        } else if self.details.show_details {
            Mode::Details
        } else if self.units.search_mode {
            Mode::Search
        } else if self.unit_file.unit_file_search_mode {
            Mode::UnitFileSearch
        } else if self.unit_file.show_unit_file {
            Mode::UnitFile
        } else if self.log_panel.log_search_mode {
            Mode::LogSearch
        } else if self.log_panel.show_logs {
            Mode::Logs
        } else {
            Mode::Units
        }
    }

    /// The help overlay can be summoned or dismissed with `?`: no picker
    /// that sets a filter is open, and no action is pending.
    pub open spec fn help_key_active(&self) -> bool {
        &&& !self.pickers.show_status_picker
        &&& !self.pickers.show_type_picker
        &&& !self.pickers.show_priority_picker
        &&& !self.pickers.show_time_picker
        &&& !self.pickers.show_file_state_picker
        &&& !self.action.show_confirm
    }

    /// The step that a key press asks for. `?` toggles the help overlay
    /// wherever that is possible. While the help overlay is shown, any other
    /// key only closes it. Otherwise the key goes to the mode of the session
    /// and to no other.
    pub open spec fn command_for(&self, press: KeyPress, view: Viewport) -> Command {
        if press.key == Key::Char('?') && self.help_key_active() {
            Command::ToggleHelp
        } else {
            match self.mode() {
                Mode::Help => Command::CloseHelp,
                Mode::StatusPicker => picker_command(press.key, 's', status_picker_steps()),
                Mode::TypePicker => picker_command(press.key, 't', type_picker_steps()),
                Mode::PriorityPicker => picker_command(press.key, 'p', priority_picker_steps()),
                Mode::TimePicker => picker_command(press.key, 'T', time_picker_steps()),
                Mode::FileStatePicker => picker_command(press.key, 'f', file_state_picker_steps()),
                Mode::ActionPicker => action_picker_command(press.key),
                Mode::Confirm => confirm_command(press.key, self.action.phase()),
                Mode::Details => details_command(press.key),
                Mode::Search => search_command(press.key, view),
                Mode::UnitFileSearch => unit_file_search_command(press.key, view),
                Mode::UnitFile => unit_file_command(
                    press,
                    view,
                    self.unit_file.unit_file_search_query@.len() > 0,
                ),
                Mode::LogSearch => log_search_command(press.key, view),
                Mode::Logs => logs_command(press, view, self.log_panel.log_search_query@.len() > 0),
                Mode::Units => units_command(press.key, view, self.units.search_query@.len() > 0),
            }
        }
    }

    /// The mode that receives a key press.
    pub fn current_mode(&self) -> (r: Mode)
        ensures
            r == self.mode(),
    {
        if self.pickers.show_help {
            Mode::Help
        } else if self.pickers.show_status_picker {
            Mode::StatusPicker
        } else if self.pickers.show_type_picker {
            Mode::TypePicker
        } else if self.pickers.show_priority_picker {
            Mode::PriorityPicker
        } else if self.pickers.show_time_picker {
            Mode::TimePicker
        } else if self.pickers.show_file_state_picker {
            Mode::FileStatePicker
        } else if self.pickers.show_action_picker {
            Mode::ActionPicker
        } else if self.action.show_confirm {
            Mode::Confirm
        } else if self.details.show_details {
            Mode::Details
        } else if self.units.search_mode {
            Mode::Search
        } else if self.unit_file.unit_file_search_mode {
            Mode::UnitFileSearch
        } else if self.unit_file.show_unit_file {
            Mode::UnitFile
        } else if self.log_panel.log_search_mode {
            Mode::LogSearch
        } else if self.log_panel.show_logs {
            Mode::Logs
        } else {
            Mode::Units
        }
    }

    /// Where the pending action stands.
    pub fn action_phase(&self) -> (r: ActionPhase)
        ensures
            r == self.action.phase(),
    {
        if !self.action.show_confirm {
            ActionPhase::Idle
        } else if self.action.action_in_progress {
            ActionPhase::Executing
        } else if self.action.action_result.is_some() {
            ActionPhase::Settled
        } else {
            ActionPhase::Confirming
        }
    }

    /// Decides which step a key press asks for, see `command_for`. A key
    /// press that goes to the unit list also removes the notice from the
    /// header; nothing else changes.
    pub fn key_command(&mut self, press: KeyPress, view: Viewport) -> (r: Command)
        ensures
            r == old(self).command_for(press, view),
            *final(self) == if r != Command::ToggleHelp && old(self).mode() == Mode::Units {
                App { status_message: None, ..*old(self) }
            } else {
                *old(self)
            },
    {
        let help_key = match press.key {
            Key::Char(c) => c == '?',
            _ => false,
        };
        if help_key && !self.pickers.show_status_picker && !self.pickers.show_type_picker
            && !self.pickers.show_priority_picker && !self.pickers.show_time_picker
            && !self.pickers.show_file_state_picker && !self.action.show_confirm {
            return Command::ToggleHelp;
        }
        match self.current_mode() {
            Mode::Help => Command::CloseHelp,
            Mode::StatusPicker => picker_key(
                press.key,
                's',
                PickerCommands {
                    close: Command::CloseStatusPicker,
                    next: Command::StatusPickerNext,
                    previous: Command::StatusPickerPrevious,
                    confirm: Command::StatusPickerConfirm,
                },
            ),
            Mode::TypePicker => picker_key(
                press.key,
                't',
                PickerCommands {
                    close: Command::CloseTypePicker,
                    next: Command::TypePickerNext,
                    previous: Command::TypePickerPrevious,
                    confirm: Command::TypePickerConfirm,
                },
            ),
            Mode::PriorityPicker => picker_key(
                press.key,
                'p',
                PickerCommands {
                    close: Command::ClosePriorityPicker,
                    next: Command::PriorityPickerNext,
                    previous: Command::PriorityPickerPrevious,
                    confirm: Command::PriorityPickerConfirm,
                },
            ),
            Mode::TimePicker => picker_key(
                press.key,
                'T',
                PickerCommands {
                    close: Command::CloseTimePicker,
                    next: Command::TimePickerNext,
                    previous: Command::TimePickerPrevious,
                    confirm: Command::TimePickerConfirm,
                },
            ),
            Mode::FileStatePicker => picker_key(
                press.key,
                'f',
                PickerCommands {
                    close: Command::CloseFileStatePicker,
                    next: Command::FileStatePickerNext,
                    previous: Command::FileStatePickerPrevious,
                    confirm: Command::FileStatePickerConfirm,
                },
            ),
            Mode::ActionPicker => action_picker_key(press.key),
            Mode::Confirm => confirm_key(press.key, self.action_phase()),
            Mode::Details => details_key(press.key),
            Mode::Search => search_key(press.key, view),
            Mode::UnitFileSearch => unit_file_search_key(press.key, view),
            Mode::UnitFile => unit_file_key(
                press,
                view,
                !self.unit_file.unit_file_search_query.as_str().is_empty(),
            ),
            Mode::LogSearch => log_search_key(press.key, view),
            Mode::Logs => logs_key(
                press,
                view,
                !self.log_panel.log_search_query.as_str().is_empty(),
            ),
            Mode::Units => {
                self.status_message = None;
                units_key(press.key, view, !self.units.search_query.as_str().is_empty())
            },
        }
    }
}

fn picker_key(key: Key, close_key: char, steps: PickerCommands) -> (r: Command)
    ensures
        r == picker_command(key, close_key, steps),
{
    match key {
        Key::Esc => steps.close,
        Key::Down => steps.next,
        Key::Up => steps.previous,
        Key::Enter => steps.confirm,
        Key::Char(c) => if c == close_key {
            steps.close
        } else if c == 'j' {
            steps.next
        } else if c == 'k' {
            steps.previous
        } else {
            Command::Nothing
        },
        _ => Command::Nothing,
    }
}

fn action_picker_key(key: Key) -> (r: Command)
    ensures
        r == action_picker_command(key),
{
    match key {
        Key::Esc => Command::CloseActionPicker,
        Key::Down => Command::ActionPickerNext,
        Key::Up => Command::ActionPickerPrevious,
        Key::Enter => Command::ActionPickerConfirm,
        Key::Char(c) => if c == 'x' {
            Command::CloseActionPicker
        } else if c == 'j' {
            Command::ActionPickerNext
        } else if c == 'k' {
            Command::ActionPickerPrevious
        } else {
            Command::ActionPickerShortcut(c)
        },
        _ => Command::Nothing,
    }
}

fn confirm_key(key: Key, phase: ActionPhase) -> (r: Command)
    ensures
        r == confirm_command(key, phase),
{
    match phase {
        ActionPhase::Executing => match key {
            Key::Esc => Command::DismissActionResult,
            _ => Command::Nothing,
        },
        ActionPhase::Settled => Command::DismissActionResult,
        _ => match key {
            Key::Esc => Command::ConfirmNo,
            Key::Char(c) => if c == 'y' || c == 'Y' {
                Command::ConfirmYes
            } else if c == 'n' || c == 'N' {
                Command::ConfirmNo
            } else {
                Command::Nothing
            },
            _ => Command::Nothing,
        },
    }
}

fn details_key(key: Key) -> (r: Command)
    ensures
        r == details_command(key),
{
    match key {
        Key::Esc | Key::Enter => Command::CloseDetails,
        Key::Down => Command::DetailScrollDown(1),
        Key::Up => Command::DetailScrollUp(1),
        Key::Home => Command::DetailScrollUp(usize::MAX),
        Key::End => Command::DetailScrollDown(usize::MAX),
        Key::PageDown => Command::DetailScrollDown(10),
        Key::PageUp => Command::DetailScrollUp(10),
        Key::Char(c) => if c == 'i' {
            Command::CloseDetails
        } else if c == 'j' {
            Command::DetailScrollDown(1)
        } else if c == 'k' {
            Command::DetailScrollUp(1)
        } else if c == 'g' {
            Command::DetailScrollUp(usize::MAX)
        } else if c == 'G' {
            Command::DetailScrollDown(usize::MAX)
        } else {
            Command::Nothing
        },
        _ => Command::Nothing,
    }
}

fn search_key(key: Key, view: Viewport) -> (r: Command)
    ensures
        r == search_command(key, view),
{
    match key {
        Key::Esc | Key::Enter => Command::StopSearch,
        Key::Backspace => Command::EraseSearchChar,
        Key::Down => Command::Next,
        Key::Up => Command::Previous,
        Key::PageUp => Command::PageUp(view.services_lines),
        Key::PageDown => Command::PageDown(view.services_lines),
        Key::Char(c) => Command::TypeSearchChar(c),
        _ => Command::Nothing,
    }
}

fn unit_file_search_key(key: Key, view: Viewport) -> (r: Command)
    ensures
        r == unit_file_search_command(key, view),
{
    match key {
        Key::Esc | Key::Enter => Command::StopUnitFileSearch,
        Key::Backspace => Command::EraseUnitFileSearchChar,
        Key::PageUp => Command::ScrollUnitFileUp(view.unit_file_lines),
        Key::PageDown => Command::ScrollUnitFileDown(view.unit_file_lines),
        Key::Char(c) => Command::TypeUnitFileSearchChar(c),
        _ => Command::Nothing,
    }
}

fn unit_file_key(press: KeyPress, view: Viewport, searching: bool) -> (r: Command)
    ensures
        r == unit_file_command(press, view, searching),
{
    match press.key {
        Key::Esc => if searching {
            Command::ClearUnitFileSearch
        } else {
            Command::CloseUnitFile
        },
        Key::Down => Command::ScrollUnitFileDown(1),
        Key::Up => Command::ScrollUnitFileUp(1),
        Key::Home => Command::UnitFileTop,
        Key::End => Command::UnitFileBottom,
        Key::PageUp => Command::ScrollUnitFileUp(view.unit_file_lines),
        Key::PageDown => Command::ScrollUnitFileDown(view.unit_file_lines),
        Key::Char(c) => if c == 'v' {
            Command::CloseUnitFile
        } else if c == 'q' {
            if searching {
                Command::ClearUnitFileSearch
            } else {
                Command::CloseUnitFile
            }
        } else if c == '/' {
            Command::StartUnitFileSearch
        } else if c == 'n' {
            Command::NextUnitFileMatch(view.unit_file_lines)
        } else if c == 'N' {
            Command::PrevUnitFileMatch(view.unit_file_lines)
        } else if c == 'j' {
            Command::ScrollUnitFileDown(1)
        } else if c == 'k' {
            Command::ScrollUnitFileUp(1)
        } else if c == 'g' {
            Command::UnitFileTop
        } else if c == 'G' {
            Command::UnitFileBottom
        } else if c == 'u' && press.ctrl {
            Command::ScrollUnitFileUp(view.unit_file_lines / 2)
        } else if c == 'd' && press.ctrl {
            Command::ScrollUnitFileDown(view.unit_file_lines / 2)
        } else {
            Command::Nothing
        },
        _ => Command::Nothing,
    }
}

fn log_search_key(key: Key, view: Viewport) -> (r: Command)
    ensures
        r == log_search_command(key, view),
{
    match key {
        Key::Esc | Key::Enter => Command::StopLogSearch,
        Key::Backspace => Command::EraseLogSearchChar,
        Key::PageUp => Command::ScrollLogsUp(view.logs_lines),
        Key::PageDown => Command::ScrollLogsDown(view.logs_lines),
        Key::Char(c) => Command::TypeLogSearchChar(c),
        _ => Command::Nothing,
    }
}

fn logs_key(press: KeyPress, view: Viewport, searching: bool) -> (r: Command)
    ensures
        r == logs_command(press, view, searching),
{
    match press.key {
        Key::Esc => if searching {
            Command::ClearLogSearch
        } else {
            Command::HideLogs
        },
        Key::Down => Command::ScrollLogsDown(1),
        Key::Up => Command::ScrollLogsUp(1),
        Key::Home => Command::LogsTop,
        Key::End => Command::LogsBottom,
        Key::PageUp => Command::ScrollLogsUp(view.logs_lines),
        Key::PageDown => Command::ScrollLogsDown(view.logs_lines),
        Key::Char(c) => if c == 'l' {
            Command::LeaveLogs
        } else if c == 'q' {
            if searching {
                Command::ClearLogSearch
            } else {
                Command::HideLogs
            }
        } else if c == '/' {
            Command::StartLogSearch
        } else if c == 'n' {
            Command::NextLogMatch(view.logs_lines)
        } else if c == 'N' {
            Command::PrevLogMatch(view.logs_lines)
        } else if c == 'j' {
            Command::ScrollLogsDown(1)
        } else if c == 'k' {
            Command::ScrollLogsUp(1)
        } else if c == 'g' {
            Command::LogsTop
        } else if c == 'G' {
            Command::LogsBottom
        } else if c == 'u' && press.ctrl {
            Command::ScrollLogsUp(view.logs_lines / 2)
        } else if c == 'd' && press.ctrl {
            Command::ScrollLogsDown(view.logs_lines / 2)
        } else if c == 'p' {
            Command::OpenPriorityPicker
        } else if c == 't' {
            Command::OpenTimePicker
        } else if c == 'x' {
            Command::OpenActionPicker
        } else if c == 'f' {
            Command::ToggleLiveTail
        } else {
            Command::Nothing
        },
        _ => Command::Nothing,
    }
}

fn units_key(key: Key, view: Viewport, searching: bool) -> (r: Command)
    ensures
        r == units_command(key, view, searching),
{
    match key {
        Key::Esc => if searching {
            Command::ClearSearch
        } else {
            Command::Quit
        },
        Key::Down => Command::Next,
        Key::Up => Command::Previous,
        Key::Home => Command::GoToTop,
        Key::End => Command::GoToBottom,
        Key::Enter => Command::OpenDetails,
        Key::PageUp => Command::PageUp(view.services_lines),
        Key::PageDown => Command::PageDown(view.services_lines),
        Key::Char(c) => if c == 'q' {
            Command::Quit
        } else if c == 'l' {
            Command::ToggleLogs
        } else if c == '/' {
            Command::StartSearch
        } else if c == 'j' {
            Command::Next
        } else if c == 'k' {
            Command::Previous
        } else if c == 'g' {
            Command::GoToTop
        } else if c == 'G' {
            Command::GoToBottom
        } else if c == 'r' {
            Command::Reload
        } else if c == 'u' {
            Command::ToggleUserMode
        } else if c == 's' {
            Command::OpenStatusPicker
        } else if c == 't' {
            Command::OpenTypePicker
        } else if c == 'p' {
            Command::OpenPriorityPicker
        } else if c == 'T' {
            Command::OpenTimePicker
        } else if c == 'i' {
            Command::OpenDetails
        } else if c == 'f' {
            Command::OpenFileStatePicker
        } else if c == 'v' {
            Command::OpenUnitFile
        } else if c == 'x' {
            Command::OpenActionPicker
        } else if c == 'R' {
            Command::RequestDaemonReload
        } else {
            Command::Nothing
        },
        _ => Command::Nothing,
    }
}

/// A rectangle of the screen, in character cells.
#[derive(Debug, Clone, Copy, PartialEq, Eq, Structural)]
pub struct Rect {
    pub x: u16,
    pub y: u16,
    pub width: u16,
    pub height: u16,
}

impl Rect {
    /// The rectangle lies within the screen: its right and lower edges are
    /// no further than a cell position can be.
    pub open spec fn fits(self) -> bool {
        self.x + self.width <= u16::MAX && self.y + self.height <= u16::MAX
    }

    /// The rectangle at `x`, `y` of the given size, cut off at the edge of
    /// what cell positions can reach.
    pub open spec fn clipped(x: u16, y: u16, width: u16, height: u16) -> Rect {
        Rect {
            x,
            y,
            width: if x + width > u16::MAX {
                (u16::MAX - x) as u16
            } else {
                width
            },
            height: if y + height > u16::MAX {
                (u16::MAX - y) as u16
            } else {
                height
            },
        }
    }

    /// The rectangle at `x`, `y` of the given size, see `clipped`.
    pub fn new(x: u16, y: u16, width: u16, height: u16) -> (r: Rect)
        ensures
            r == Rect::clipped(x, y, width, height),
            r.fits(),
    {
        let max_width: u16 = u16::MAX - x;
        let max_height: u16 = u16::MAX - y;
        Rect {
            x,
            y,
            width: if width > max_width {
                max_width
            } else {
                width
            },
            height: if height > max_height {
                max_height
            } else {
                height
            },
        }
    }
}

/// The rectangle of at most `width` by `height` cells in the middle of
/// `area`: no larger than the area, and with the space that is left split
/// evenly, the odd cell going to the right and below.
pub open spec fn centered_in(width: u16, height: u16, area: Rect) -> Rect {
    Rect {
        x: (area.x + (if area.width > width {
            area.width - width
        } else {
            0
        }) / 2) as u16,
        y: (area.y + (if area.height > height {
            area.height - height
        } else {
            0
        }) / 2) as u16,
        width: if width < area.width {
            width
        } else {
            area.width
        },
        height: if height < area.height {
            height
        } else {
            area.height
        },
    }
}

/// The rectangle of at most `width` by `height` cells in the middle of
/// `area`, see `centered_in`.
pub fn centered_fixed_rect(width: u16, height: u16, area: Rect) -> (r: Rect)
    requires
        area.fits(),
    ensures
        r == centered_in(width, height, area),
        r.fits(),
{
    let spare_width: u16 = if area.width > width {
        area.width - width
    } else {
        0
    };
    let spare_height: u16 = if area.height > height {
        area.height - height
    } else {
        0
    };
    Rect {
        x: area.x + spare_width / 2,
        y: area.y + spare_height / 2,
        width: if width < area.width {
            width
        } else {
            area.width
        },
        height: if height < area.height {
            height
        } else {
            area.height
        },
    }
}

/// What the mouse did.
#[derive(Debug, Clone, Copy, PartialEq, Eq, Structural)]
pub enum MouseKind {
    LeftDown,
    ScrollUp,
    ScrollDown,
    Other,
}

/// A mouse event: what the mouse did, and in which cell.
#[derive(Debug, Clone, Copy, PartialEq, Eq, Structural)]
pub struct MouseInput {
    pub kind: MouseKind,
    pub column: u16,
    pub row: u16,
}

/// The number of records that one notch of the mouse wheel scrolls the log.
pub const WHEEL_LINES: usize = 3;

/// The cell lies in the rectangle; its right and lower edges are outside.
pub open spec fn in_rect(column: u16, row: u16, rect: Rect) -> bool {
    &&& rect.x <= column < rect.x + rect.width
    &&& rect.y <= row < rect.y + rect.height
}

/// The filtered position of the row of the unit list that a click in `row`
/// hits, in a list drawn in `list` with a border line above its rows and
/// scrolled to `offset`.
pub open spec fn clicked_position(row: u16, list: Rect, offset: usize) -> int {
    offset + if row > list.y + 1 {
        row - (list.y + 1)
    } else {
        0
    }
}

/// Whether the mouse event lies in the rectangle.
pub fn mouse_in_rect(mouse: MouseInput, rect: Rect) -> (r: bool)
    ensures
        r == in_rect(mouse.column, mouse.row, rect),
{
    let column: u32 = mouse.column as u32;
    let row: u32 = mouse.row as u32;
    column >= rect.x as u32 && column < rect.x as u32 + rect.width as u32 && row >= rect.y as u32
        && row < rect.y as u32 + rect.height as u32
}

impl App {
    /// An overlay is shown that takes the mouse away from the panels.
    pub open spec fn overlay_shown(&self) -> bool {
        ||| self.pickers.show_help
        ||| self.pickers.show_status_picker
        ||| self.pickers.show_type_picker
        ||| self.pickers.show_priority_picker
        ||| self.pickers.show_time_picker
        ||| self.details.show_details
        ||| self.pickers.show_file_state_picker
        ||| self.pickers.show_action_picker
        ||| self.action.show_confirm
        ||| self.unit_file.show_unit_file
    }

    /// The step that a mouse event asks for, with the unit list drawn in
    /// `services_list`. Under an overlay the mouse does nothing. In the log
    /// panel the wheel scrolls the log. In the unit list a click on a row
    /// selects it and the wheel moves the cursor, both only inside the list.
    pub open spec fn mouse_command_for(&self, mouse: MouseInput, services_list: Rect) -> Command {
        if self.overlay_shown() {
            Command::Nothing
        } else if self.log_panel.show_logs {
            match mouse.kind {
                MouseKind::ScrollUp => Command::ScrollLogsUp(WHEEL_LINES),
                MouseKind::ScrollDown => Command::ScrollLogsDown(WHEEL_LINES),
                _ => Command::Nothing,
            }
        } else if !in_rect(mouse.column, mouse.row, services_list) {
            Command::Nothing
        } else {
            match mouse.kind {
                MouseKind::LeftDown => {
                    let position = clicked_position(
                        mouse.row,
                        services_list,
                        self.units.list_state.offset,
                    );
                    if position < self.units.filtered_indices@.len() {
                        Command::SelectUnit(position as usize)
                    } else {
                        Command::Nothing
                    }
                },
                MouseKind::ScrollUp => Command::Previous,
                MouseKind::ScrollDown => Command::Next,
                MouseKind::Other => Command::Nothing,
            }
        }
    }

    /// Decides which step a mouse event asks for, see `mouse_command_for`.
    pub fn mouse_command(&self, mouse: MouseInput, services_list: Rect) -> (r: Command)
        ensures
            r == self.mouse_command_for(mouse, services_list),
    {
        if self.pickers.show_help || self.pickers.show_status_picker
            || self.pickers.show_type_picker || self.pickers.show_priority_picker
            || self.pickers.show_time_picker || self.details.show_details
            || self.pickers.show_file_state_picker || self.pickers.show_action_picker
            || self.action.show_confirm || self.unit_file.show_unit_file {
            return Command::Nothing;
        }
        if self.log_panel.show_logs {
            return match mouse.kind {
                MouseKind::ScrollUp => Command::ScrollLogsUp(WHEEL_LINES),
                MouseKind::ScrollDown => Command::ScrollLogsDown(WHEEL_LINES),
                _ => Command::Nothing,
            };
        }
        if !mouse_in_rect(mouse, services_list) {
            return Command::Nothing;
        }
        match mouse.kind {
            MouseKind::LeftDown => {
                let first_row: u32 = services_list.y as u32 + 1;
                let row: u32 = mouse.row as u32;
                let below: usize = if row > first_row {
                    (row - first_row) as usize
                } else {
                    0
                };
                let len = self.units.filtered_indices.len();
                let offset = self.units.list_state.offset();
                if offset < len && below < len - offset {
                    Command::SelectUnit(offset + below)
                } else {
                    Command::Nothing
                }
            },
            MouseKind::ScrollUp => Command::Previous,
            MouseKind::ScrollDown => Command::Next,
            MouseKind::Other => Command::Nothing,
        }
    }
}

} // verus!
