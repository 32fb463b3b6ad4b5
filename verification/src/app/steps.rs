//! The steps that a key press or a mouse event asks for beyond the moves of
//! the engines: typing into the three search fields, entering and leaving
//! modes, and picking a unit or an action directly.

use vstd::prelude::*;
use vstd::string::*;
use crate::app::logs::log_matches;
use crate::app::unit_file::line_matches;
use crate::app::{App, LogPanel, PendingAction, Pickers, UnitFileViewer, UnitList};
use crate::service::{SystemdUnit, UnitAction};
use crate::text::{string_pop, string_push};
use crate::viewport::LogScroll;

verus! {

/// The text after typing `c` at its end.
pub open spec fn typed(text: Seq<char>, c: char) -> Seq<char> {
    text.push(c)
}

/// The text after erasing its last character; the empty text stays empty.
pub open spec fn erased(text: Seq<char>) -> Seq<char> {
    if text.len() == 0 {
        text
    } else {
        text.drop_last()
    }
}

/// The first position at or after `from` whose action has the shortcut `c`.
pub open spec fn shortcut_from(actions: Seq<UnitAction>, c: char, from: int) -> Option<int>
    decreases actions.len() - from,
{
    if from < 0 || from >= actions.len() {
        None
    } else if actions[from].shortcut_char() == c {
        Some(from)
    } else {
        shortcut_from(actions, c, from + 1)
    }
}

impl UnitList {
    /// This list is `before` with the text filter `query`, filtered anew.
    pub open spec fn is_searched_from(&self, before: UnitList, query: Seq<char>) -> bool {
        &&& *self == (UnitList {
            search_query: self.search_query,
            filtered_indices: self.filtered_indices,
            list_state: self.list_state,
            ..before
        })
        &&& self.search_query@ == query
        &&& self.shows_filtered(before.services.deep_view(), self.filter(), before.list_state)
        &&& self.selection_wf()
    }
}

impl LogPanel {
    /// This panel is `before` with the search query `query`, searched anew:
    /// the matches are those of the query, the first match is current and
    /// the panel starts at it; without a match nothing is current and the
    /// panel stays.
    pub open spec fn is_searched_from(&self, before: LogPanel, query: Seq<char>) -> bool {
        &&& *self == (LogPanel {
            log_search_query: self.log_search_query,
            log_search_matches: self.log_search_matches,
            log_search_match_index: self.log_search_match_index,
            logs_scroll: self.logs_scroll,
            cached_entry_heights_dirty: true,
            ..before
        })
        &&& self.log_search_query@ == query
        &&& self.log_search_matches@ == log_matches(before.logs.deep_view(), query)
        &&& self.log_search_matches@.len() == 0 ==> self.log_search_match_index is None
            && self.logs_scroll == before.logs_scroll
        &&& self.log_search_matches@.len() > 0 ==> self.log_search_match_index == Some(0usize)
            && self.logs_scroll == LogScroll::Fixed(self.log_search_matches@[0])
    }
}

impl UnitFileViewer {
    /// This viewer is `before` with the search query `query`, searched anew.
    pub open spec fn is_searched_from(&self, before: UnitFileViewer, query: Seq<char>) -> bool {
        &&& *self == (UnitFileViewer {
            unit_file_search_query: self.unit_file_search_query,
            unit_file_search_matches: self.unit_file_search_matches,
            unit_file_search_match_index: self.unit_file_search_match_index,
            unit_file_scroll: self.unit_file_scroll,
            ..before
        })
        &&& self.unit_file_search_query@ == query
        &&& self.unit_file_search_matches@ == line_matches(
            before.unit_file_content.deep_view(),
            query,
        )
        &&& self.unit_file_search_matches@.len() == 0 ==> self.unit_file_search_match_index is None
            && self.unit_file_scroll == before.unit_file_scroll
        &&& self.unit_file_search_matches@.len() > 0 ==> self.unit_file_search_match_index == Some(
            0usize,
        ) && self.unit_file_scroll == self.unit_file_search_matches@[0]
    }
}

impl App {
    /// Asks to leave the panel.
    pub fn quit(&mut self)
        ensures
            *final(self) == (App { should_quit: true, ..*old(self) }),
    {
        self.should_quit = true;
    }

    /// Hides the help overlay.
    pub fn close_help(&mut self)
        ensures
            *final(self) == (App {
                pickers: Pickers { show_help: false, ..old(self).pickers },
                ..*old(self)
            }),
    {
        self.pickers.show_help = false;
    }

    /// Starts typing the text filter of the unit list.
    pub fn start_search(&mut self)
        ensures
            *final(self) == (App {
                units: UnitList { search_mode: true, ..old(self).units },
                ..*old(self)
            }),
    {
        self.units.search_mode = true;
    }

    /// Stops typing the text filter; the filter stays in effect.
    pub fn stop_search(&mut self)
        ensures
            *final(self) == (App {
                units: UnitList { search_mode: false, ..old(self).units },
                ..*old(self)
            }),
    {
        self.units.search_mode = false;
    }

    /// Appends `c` to the text filter and filters the units anew.
    pub fn type_search_char(&mut self, c: char)
        ensures
            *final(self) == (App { units: final(self).units, ..*old(self) }),
            final(self).units.is_searched_from(
                old(self).units,
                typed(old(self).units.search_query@, c),
            ),
    {
        string_push(&mut self.units.search_query, c);
        self.update_filter();
    }

    /// Erases the last character of the text filter and filters the units
    /// anew.
    pub fn erase_search_char(&mut self)
        ensures
            *final(self) == (App { units: final(self).units, ..*old(self) }),
            final(self).units.is_searched_from(
                old(self).units,
                erased(old(self).units.search_query@),
            ),
    {
        let _ = string_pop(&mut self.units.search_query);
        self.update_filter();
    }

    /// Moves the cursor of the unit list to filtered position `index`, as a
    /// click on that row asks for. A position outside the list changes
    /// nothing.
    pub fn select_unit(&mut self, index: usize)
        ensures
            *final(self) == (App {
                units: if index < old(self).units.filtered_indices@.len() {
                    old(self).units.moved_to(index)
                } else {
                    old(self).units
                },
                ..*old(self)
            }),
    {
        if index < self.units.filtered_indices.len() {
            self.units.list_state.select(Some(index));
        }
    }

    /// Takes in a listing of the units that the operator asked for at time
    /// `now`, as `load_services` does, and announces a listing that
    /// succeeded in the header.
    pub fn reload_services(&mut self, fetched: Result<Vec<SystemdUnit>, String>, now: i64)
        ensures
            (App { status_message: old(self).status_message, ..*final(self) }).is_loaded_from(
                *old(self),
                fetched,
                now,
            ),
            fetched is Ok ==> final(self).status_message.deep_view() == Some("Refreshed"@),
            fetched is Err ==> final(self).status_message == old(self).status_message,
    {
        self.load_services(fetched, now);
        if self.units.error.is_none() {
            self.status_message = Some(String::from_str("Refreshed"));
        }
    }

    /// Starts typing the search of the log panel.
    pub fn start_log_search(&mut self)
        ensures
            *final(self) == (App {
                log_panel: LogPanel { log_search_mode: true, ..old(self).log_panel },
                ..*old(self)
            }),
    {
        self.log_panel.log_search_mode = true;
    }

    /// Stops typing the search of the log panel; the search stays.
    pub fn stop_log_search(&mut self)
        ensures
            *final(self) == (App {
                log_panel: LogPanel { log_search_mode: false, ..old(self).log_panel },
                ..*old(self)
            }),
    {
        self.log_panel.log_search_mode = false;
    }

    /// Appends `c` to the query of the log search and searches anew.
    pub fn type_log_search_char(&mut self, c: char)
        ensures
            *final(self) == (App { log_panel: final(self).log_panel, ..*old(self) }),
            final(self).log_panel.is_searched_from(
                old(self).log_panel,
                typed(old(self).log_panel.log_search_query@, c),
            ),
    {
        string_push(&mut self.log_panel.log_search_query, c);
        self.update_log_search();
    }

    /// Erases the last character of the query of the log search and searches
    /// anew.
    pub fn erase_log_search_char(&mut self)
        ensures
            *final(self) == (App { log_panel: final(self).log_panel, ..*old(self) }),
            final(self).log_panel.is_searched_from(
                old(self).log_panel,
                erased(old(self).log_panel.log_search_query@),
            ),
    {
        let _ = string_pop(&mut self.log_panel.log_search_query);
        self.update_log_search();
    }

    /// Leaves the log panel for the unit list: the search is dropped, the
    /// panel is hidden or shown as `toggle_logs` does.
    pub fn leave_logs(&mut self)
        ensures
            *final(self) == (App { log_panel: final(self).log_panel, ..*old(self) }),
            final(self).log_panel == (LogPanel {
                log_search_query: final(self).log_panel.log_search_query,
                log_search_matches: final(self).log_panel.log_search_matches,
                log_search_match_index: None,
                cached_entry_heights_dirty: true,
                show_logs: !old(self).log_panel.show_logs,
                live_tail: !old(self).log_panel.show_logs,
                last_selected_service: if old(self).log_panel.show_logs {
                    None
                } else {
                    old(self).log_panel.last_selected_service
                },
                ..old(self).log_panel
            }),
            final(self).log_panel.search_is_clear(),
    {
        self.clear_log_search();
        self.toggle_logs();
    }

    /// Hides the log panel and stops following the log. The loaded log
    /// stays.
    pub fn hide_logs(&mut self)
        ensures
            *final(self) == (App {
                log_panel: LogPanel { live_tail: false, show_logs: false, ..old(self).log_panel },
                ..*old(self)
            }),
    {
        self.log_panel.live_tail = false;
        self.log_panel.show_logs = false;
    }

    /// Starts typing the search of the file viewer.
    pub fn start_unit_file_search(&mut self)
        ensures
            *final(self) == (App {
                unit_file: UnitFileViewer { unit_file_search_mode: true, ..old(self).unit_file },
                ..*old(self)
            }),
    {
        self.unit_file.unit_file_search_mode = true;
    }

    /// Stops typing the search of the file viewer; the search stays.
    pub fn stop_unit_file_search(&mut self)
        ensures
            *final(self) == (App {
                unit_file: UnitFileViewer { unit_file_search_mode: false, ..old(self).unit_file },
                ..*old(self)
            }),
    {
        self.unit_file.unit_file_search_mode = false;
    }

    /// Appends `c` to the query of the file viewer's search and searches
    /// anew.
    pub fn type_unit_file_search_char(&mut self, c: char)
        ensures
            *final(self) == (App { unit_file: final(self).unit_file, ..*old(self) }),
            final(self).unit_file.is_searched_from(
                old(self).unit_file,
                typed(old(self).unit_file.unit_file_search_query@, c),
            ),
    {
        string_push(&mut self.unit_file.unit_file_search_query, c);
        self.update_unit_file_search();
    }

    /// Erases the last character of the query of the file viewer's search
    /// and searches anew.
    pub fn erase_unit_file_search_char(&mut self)
        ensures
            *final(self) == (App { unit_file: final(self).unit_file, ..*old(self) }),
            final(self).unit_file.is_searched_from(
                old(self).unit_file,
                erased(old(self).unit_file.unit_file_search_query@),
            ),
    {
        let _ = string_pop(&mut self.unit_file.unit_file_search_query);
        self.update_unit_file_search();
    }

    /// Picks the action with the shortcut `c` in the action picker and takes
    /// it to the confirmation dialog, as moving the cursor to it and
    /// confirming does. Without such an action nothing changes.
    pub fn action_picker_shortcut(&mut self, c: char)
        ensures
            match shortcut_from(old(self).pickers.available_actions@, c, 0) {
                Some(i) => {
                    &&& 0 <= i < old(self).pickers.available_actions@.len()
                    &&& *final(self) == (App {
                        action: final(self).action,
                        pickers: Pickers {
                            show_action_picker: false,
                            action_picker_state: old(
                                self,
                            ).pickers.action_picker_state.with_selection(Some(i as usize)),
                            ..old(self).pickers
                        },
                        ..*old(self)
                    })
                    &&& final(self).action == (PendingAction {
                        show_confirm: true,
                        confirm_action: Some(old(self).pickers.available_actions@[i]),
                        confirm_unit_name: final(self).action.confirm_unit_name,
                        ..old(self).action
                    })
                    &&& final(self).action.confirm_unit_name.deep_view() == Some(
                        old(self).action_target(old(self).pickers.available_actions@[i]),
                    )
                },
                None => *final(self) == *old(self),
            },
    {
        let mut i: usize = 0;
        while i < self.pickers.available_actions.len()
            invariant
                i <= self.pickers.available_actions.len(),
                *self == *old(self),
                shortcut_from(self.pickers.available_actions@, c, 0) == shortcut_from(
                    self.pickers.available_actions@,
                    c,
                    i as int,
                ),
            decreases self.pickers.available_actions.len() - i,
        {
            if self.pickers.available_actions[i].shortcut() == c {
                self.pickers.action_picker_state.select(Some(i));
                self.action_picker_confirm();
                return ;
            }
            i = i + 1;
        }
    }
}

} // verus!
