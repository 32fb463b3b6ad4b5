//! What frames the panels: the header line, the key hints in the footer,
//! the page of the help overlay and the text of the confirmation dialog, as
//! the state of the session decides them.

use vstd::prelude::*;
use vstd::string::*;
use crate::app::App;
use crate::service::{UnitAction, UnitType};
use crate::text::{decimal_text, push_decimal};

verus! {

/// What the header shows, which decides how it is drawn.
#[derive(Debug, Clone, Copy, PartialEq, Eq, Structural)]
pub enum HeaderKind {
    /// The log search as it is typed.
    LogSearchInput,
    /// The log search in effect.
    LogSearch,
    /// The text filter as it is typed.
    SearchInput,
    /// The filters in effect.
    Filters,
    /// A notice.
    Notice,
    /// The category and scope.
    Title,
}

/// The header line.
#[derive(Debug, Clone, PartialEq, Eq)]
pub struct Header {
    pub kind: HeaderKind,
    pub text: String,
}

/// The page of the help overlay.
#[derive(Debug, Clone, Copy, PartialEq, Eq, Structural)]
pub enum HelpPage {
    Actions,
    Details,
    Logs,
    Units,
}

/// What the confirmation dialog is about.
#[derive(Debug, Clone, Copy, PartialEq, Eq, Structural)]
pub enum DialogKind {
    /// The question whether to run the action.
    Question,
    /// The action is running.
    Progress,
    /// The action succeeded.
    Success,
    /// The action failed.
    Failure,
}

/// The confirmation dialog.
#[derive(Debug, Clone, PartialEq, Eq)]
pub struct Dialog {
    pub kind: DialogKind,
    pub message: String,
}

/// The count of matches behind the query of the log search as it is typed:
/// nothing for an empty query, a note where nothing matches, else the
/// number of the current match and the number of matches.
pub open spec fn match_info(query: Seq<char>, matches: nat, current: Option<usize>) -> Seq<char> {
    if matches == 0 {
        if query.len() == 0 {
            Seq::empty()
        } else {
            " (no matches)"@
        }
    } else {
        " ("@ + decimal_text(
            match current {
                Some(i) => if i < usize::MAX {
                    (i + 1) as nat
                } else {
                    usize::MAX as nat
                },
                None => 0,
            },
        ) + "/"@ + decimal_text(matches) + ")"@
    }
}

/// The filters in effect, each with its name, with bars between them.
pub open spec fn filter_info(
    query: Seq<char>,
    status: Option<Seq<char>>,
    file_state: Option<Seq<char>>,
) -> Seq<char> {
    let search = if query.len() > 0 {
        "Search: "@ + query
    } else {
        Seq::empty()
    };
    let with_status = match status {
        Some(s) => search + (if search.len() > 0 {
            " | "@
        } else {
            Seq::empty()
        }) + "Status: "@ + s,
        None => search,
    };
    match file_state {
        Some(f) => with_status + (if with_status.len() > 0 {
            " | "@
        } else {
            Seq::empty()
        }) + "File state: "@ + f,
        None => with_status,
    }
}

/// The name of the scope.
pub open spec fn scope_label(user_mode: bool) -> Seq<char> {
    if user_mode {
        "User"@
    } else {
        "System"@
    }
}

/// The title of the panel: the category and the scope, and when the units
/// were listed where `loaded` says so.
pub open spec fn title_text(unit_type: UnitType, user_mode: bool, loaded: Seq<char>) -> Seq<char> {
    "SystemD "@ + unit_type.label_text() + " ["@ + scope_label(user_mode) + "]"@ + (if loaded.len()
        > 0 {
        "  (loaded "@ + loaded + ")"@
    } else {
        Seq::empty()
    })
}

impl App {
    /// A filter of the unit list is in effect.
    pub open spec fn filters_active(&self) -> bool {
        self.units.search_query@.len() > 0 || self.units.status_filter is Some
            || self.units.file_state_filter is Some
    }

    /// What the header shows: the search that is typed or in effect, else
    /// the filters in effect, else a notice, else the title.
    pub open spec fn header_kind(&self) -> HeaderKind {
        if self.log_panel.log_search_mode {
            HeaderKind::LogSearchInput
        } else if self.log_panel.log_search_query@.len() > 0 && self.log_panel.show_logs {
            HeaderKind::LogSearch
        } else if self.units.search_mode {
            HeaderKind::SearchInput
        } else if self.filters_active() {
            HeaderKind::Filters
        } else if self.status_message is Some {
            HeaderKind::Notice
        } else {
            HeaderKind::Title
        }
    }

    /// The text of the header, given the text of the time at which the units
    /// were listed; that is empty where they were not.
    pub open spec fn header_text(&self, loaded: Seq<char>) -> Seq<char> {
        match self.header_kind() {
            HeaderKind::LogSearchInput => "/"@ + self.log_panel.log_search_query@ + "_"@
                + match_info(
                self.log_panel.log_search_query@,
                self.log_panel.log_search_matches@.len(),
                self.log_panel.log_search_match_index,
            ),
            HeaderKind::LogSearch => "Log search: \""@ + self.log_panel.log_search_query@
                + "\" ("@ + decimal_text(self.log_panel.log_search_matches@.len())
                + " matches) | n/N: Next/Prev"@,
            HeaderKind::SearchInput => "/"@ + self.units.search_query@ + "_"@,
            HeaderKind::Filters => filter_info(
                self.units.search_query@,
                self.units.status_filter.deep_view(),
                self.units.file_state_filter.deep_view(),
            ) + " ("@ + decimal_text(self.units.filtered_indices@.len()) + " matches)"@,
            HeaderKind::Notice => self.status_message.deep_view()->0,
            HeaderKind::Title => title_text(self.units.unit_type, self.units.user_mode, loaded),
        }
    }

    /// The key hints of the footer, by what receives the keys.
    pub open spec fn footer_hint_text(&self) -> Seq<char> {
        if self.pickers.show_help {
            "Press any key to close"@
        } else if self.action.show_confirm && self.action.action_in_progress {
            "Executing... | Esc: Dismiss"@
        } else if self.action.show_confirm && self.action.action_result is Some {
            "Press any key to dismiss"@
        } else if self.action.show_confirm {
            "Y: Confirm | N/Esc: Cancel"@
        } else if self.pickers.show_action_picker {
            "j/k: Navigate | Enter/shortcut: Select | Esc/x: Close"@
        } else if self.details.show_details {
            "j/k: Scroll | g/G: Top/Bottom | PgUp/PgDn: Page | Esc/i: Close"@
        } else if self.pickers.show_status_picker {
            "j/k: Navigate | Enter: Select | Esc/s: Close"@
        } else if self.pickers.show_type_picker {
            "j/k: Navigate | Enter: Select | Esc/t: Close"@
        } else if self.pickers.show_priority_picker {
            "j/k: Navigate | Enter: Select | Esc/p: Close"@
        } else if self.pickers.show_time_picker {
            "j/k: Navigate | Enter: Select | Esc/T: Close"@
        } else if self.pickers.show_file_state_picker {
            "j/k: Navigate | Enter: Select | Esc/f: Close"@
        } else if self.unit_file.unit_file_search_mode {
            "Type to search the file | Esc/Enter: Exit search"@
        } else if self.unit_file.show_unit_file {
            "Esc/v: Close | j/k: Scroll | g/G: Top/Bottom | /: Search | n/N: Next/Prev match"@
        } else if self.log_panel.log_search_mode {
            "Type to search logs | Esc/Enter: Exit search | ?: Help & more"@
        } else if self.log_panel.show_logs && self.log_panel.log_search_query@.len() > 0 {
            "Esc: Back | j/k: Scroll | n/N: Next/Prev match | x: Actions | f: Follow | p: Priority | t: Time | /: Search | ?: Help & more"@
        } else if self.log_panel.show_logs {
            "Esc: Back | j/k: Scroll | g/G: Top/Bottom | x: Actions | f: Follow | /: Search | p: Priority | t: Time | ?: Help & more"@
        } else if self.units.search_mode {
            "Type to search | Esc/Enter: Exit search | ?: Help & more"@
        } else if self.filters_active() {
            "q: Quit | /: Search | s: Status | f: File state | x: Actions | i: Details | t: Type | l: Logs | r: Refresh | u: User/System | Esc: Clear | ?: Help & more"@
        } else {
            "q/Esc: Quit | /: Search | s: Status | f: File state | x: Actions | i: Details | t: Type | l: Logs | r: Refresh | u: User/System | ?: Help & more"@
        }
    }

    /// The page of the help overlay: that of what the help was summoned
    /// from.
    pub open spec fn help_page_for(&self) -> HelpPage {
        if self.pickers.show_action_picker {
            HelpPage::Actions
        } else if self.details.show_details {
            HelpPage::Details
        } else if self.log_panel.show_logs {
            HelpPage::Logs
        } else {
            HelpPage::Units
        }
    }

    /// What the confirmation dialog is about; nothing without an action and
    /// a unit. A settled result goes before the progress of the action, and
    /// that before the question.
    pub open spec fn dialog_kind(&self) -> Option<DialogKind> {
        if self.action.confirm_action is None || self.action.confirm_unit_name is None {
            None
        } else {
            match self.action.action_result {
                Some(Ok(_)) => Some(DialogKind::Success),
                Some(Err(_)) => Some(DialogKind::Failure),
                None => if self.action.action_in_progress {
                    Some(DialogKind::Progress)
                } else {
                    Some(DialogKind::Question)
                },
            }
        }
    }

    /// The message of the confirmation dialog.
    pub open spec fn dialog_message(&self) -> Seq<char> {
        match self.action.action_result {
            Some(Ok(m)) => m@,
            Some(Err(m)) => m@,
            None => if self.action.action_in_progress {
                self.action.confirm_action->0.progress_text()
            } else {
                self.action.confirm_action->0.confirmation_text(
                    self.action.confirm_unit_name->0@,
                )
            },
        }
    }

    /// Whether a filter of the unit list is in effect.
    pub fn has_filters(&self) -> (r: bool)
        ensures
            r == self.filters_active(),
    {
        !self.units.search_query.as_str().is_empty() || self.units.status_filter.is_some()
            || self.units.file_state_filter.is_some()
    }

    /// The header line, given the text of the time at which the units were
    /// listed; that is empty where they were not.
    pub fn header(&self, loaded: &str) -> (r: Header)
        ensures
            r.kind == self.header_kind(),
            r.text@ == self.header_text(loaded@),
    {
        if self.log_panel.log_search_mode {
            let mut text = String::from_str("/");
            text.append(self.log_panel.log_search_query.as_str());
            text.append("_");
            let matches = self.log_panel.log_search_matches.len();
            if matches == 0 {
                if !self.log_panel.log_search_query.as_str().is_empty() {
                    text.append(" (no matches)");
                }
            } else {
                let current: usize = match self.log_panel.log_search_match_index {
                    Some(i) => if i < usize::MAX {
                        i + 1
                    } else {
                        usize::MAX
                    },
                    None => 0,
                };
                text.append(" (");
                push_decimal(&mut text, current as u64);
                text.append("/");
                push_decimal(&mut text, matches as u64);
                text.append(")");
            }
            assert(text@ =~= self.header_text(loaded@));
            Header { kind: HeaderKind::LogSearchInput, text }
        } else if !self.log_panel.log_search_query.as_str().is_empty() && self.log_panel.show_logs {
            let mut text = String::from_str("Log search: \"");
            text.append(self.log_panel.log_search_query.as_str());
            text.append("\" (");
            push_decimal(&mut text, self.log_panel.log_search_matches.len() as u64);
            text.append(" matches) | n/N: Next/Prev");
            assert(text@ =~= self.header_text(loaded@));
            Header { kind: HeaderKind::LogSearch, text }
        } else if self.units.search_mode {
            let mut text = String::from_str("/");
            text.append(self.units.search_query.as_str());
            text.append("_");
            assert(text@ =~= self.header_text(loaded@));
            Header { kind: HeaderKind::SearchInput, text }
        } else if self.has_filters() {
            let mut text = String::new();
            if !self.units.search_query.as_str().is_empty() {
                text.append("Search: ");
                text.append(self.units.search_query.as_str());
            }
            match &self.units.status_filter {
                Some(s) => {
                    if !text.as_str().is_empty() {
                        text.append(" | ");
                    }
                    text.append("Status: ");
                    text.append(s.as_str());
                },
                None => {},
            }
            match &self.units.file_state_filter {
                Some(f) => {
                    if !text.as_str().is_empty() {
                        text.append(" | ");
                    }
                    text.append("File state: ");
                    text.append(f.as_str());
                },
                None => {},
            }
            assert(text@ =~= filter_info(
                self.units.search_query@,
                self.units.status_filter.deep_view(),
                self.units.file_state_filter.deep_view(),
            ));
            text.append(" (");
            push_decimal(&mut text, self.units.filtered_indices.len() as u64);
            text.append(" matches)");
            assert(text@ =~= self.header_text(loaded@));
            Header { kind: HeaderKind::Filters, text }
        } else {
            match &self.status_message {
                Some(message) => Header { kind: HeaderKind::Notice, text: message.clone() },
                None => {
                    let mut text = String::from_str("SystemD ");
                    text.append(self.units.unit_type.label());
                    text.append(" [");
                    text.append(
                        if self.units.user_mode {
                            "User"
                        } else {
                            "System"
                        },
                    );
                    text.append("]");
                    if !loaded.is_empty() {
                        text.append("  (loaded ");
                        text.append(loaded);
                        text.append(")");
                    }
                    assert(text@ =~= self.header_text(loaded@));
                    Header { kind: HeaderKind::Title, text }
                },
            }
        }
    }

    /// The key hints of the footer, by what receives the keys.
    pub fn footer_hint(&self) -> (r: &'static str)
        ensures
            r@ == self.footer_hint_text(),
    {
        if self.pickers.show_help {
            "Press any key to close"
        } else if self.action.show_confirm && self.action.action_in_progress {
            "Executing... | Esc: Dismiss"
        } else if self.action.show_confirm && self.action.action_result.is_some() {
            "Press any key to dismiss"
        } else if self.action.show_confirm {
            "Y: Confirm | N/Esc: Cancel"
        } else if self.pickers.show_action_picker {
            "j/k: Navigate | Enter/shortcut: Select | Esc/x: Close"
        } else if self.details.show_details {
            "j/k: Scroll | g/G: Top/Bottom | PgUp/PgDn: Page | Esc/i: Close"
        } else if self.pickers.show_status_picker {
            "j/k: Navigate | Enter: Select | Esc/s: Close"
        } else if self.pickers.show_type_picker {
            "j/k: Navigate | Enter: Select | Esc/t: Close"
        } else if self.pickers.show_priority_picker {
            "j/k: Navigate | Enter: Select | Esc/p: Close"
        } else if self.pickers.show_time_picker {
            "j/k: Navigate | Enter: Select | Esc/T: Close"
        } else if self.pickers.show_file_state_picker {
            "j/k: Navigate | Enter: Select | Esc/f: Close"
        } else if self.unit_file.unit_file_search_mode {
            "Type to search the file | Esc/Enter: Exit search"
        } else if self.unit_file.show_unit_file {
            "Esc/v: Close | j/k: Scroll | g/G: Top/Bottom | /: Search | n/N: Next/Prev match"
        } else if self.log_panel.log_search_mode {
            "Type to search logs | Esc/Enter: Exit search | ?: Help & more"
        } else if self.log_panel.show_logs && !self.log_panel.log_search_query.as_str().is_empty() {
            "Esc: Back | j/k: Scroll | n/N: Next/Prev match | x: Actions | f: Follow | p: Priority | t: Time | /: Search | ?: Help & more"
        } else if self.log_panel.show_logs {
            "Esc: Back | j/k: Scroll | g/G: Top/Bottom | x: Actions | f: Follow | /: Search | p: Priority | t: Time | ?: Help & more"
        } else if self.units.search_mode {
            "Type to search | Esc/Enter: Exit search | ?: Help & more"
        } else if self.has_filters() {
            "q: Quit | /: Search | s: Status | f: File state | x: Actions | i: Details | t: Type | l: Logs | r: Refresh | u: User/System | Esc: Clear | ?: Help & more"
        } else {
            "q/Esc: Quit | /: Search | s: Status | f: File state | x: Actions | i: Details | t: Type | l: Logs | r: Refresh | u: User/System | ?: Help & more"
        }
    }

    /// The page of the help overlay.
    pub fn help_page(&self) -> (r: HelpPage)
        ensures
            r == self.help_page_for(),
    {
        if self.pickers.show_action_picker {
            HelpPage::Actions
        } else if self.details.show_details {
            HelpPage::Details
        } else if self.log_panel.show_logs {
            HelpPage::Logs
        } else {
            HelpPage::Units
        }
    }

    /// The confirmation dialog, where an action and a unit are pending.
    pub fn confirm_dialog(&self) -> (r: Option<Dialog>)
        ensures
            r is Some == self.dialog_kind() is Some,
            r matches Some(dialog) ==> Some(dialog.kind) == self.dialog_kind() && dialog.message@
                == self.dialog_message(),
    {
        let action: UnitAction = match self.action.confirm_action {
            Some(a) => a,
            None => {
                return None;
            },
        };
        let unit_name = match &self.action.confirm_unit_name {
            Some(n) => n,
            None => {
                return None;
            },
        };
        match &self.action.action_result {
            Some(Ok(m)) => Some(Dialog { kind: DialogKind::Success, message: m.clone() }),
            Some(Err(m)) => Some(Dialog { kind: DialogKind::Failure, message: m.clone() }),
            None => {
                if self.action.action_in_progress {
                    Some(
                        Dialog {
                            kind: DialogKind::Progress,
                            message: String::from_str(action.progress_label()),
                        },
                    )
                } else {
                    Some(
                        Dialog {
                            kind: DialogKind::Question,
                            message: action.confirmation_message(unit_name.as_str()),
                        },
                    )
                }
            },
        }
    }
}

} // verus!
