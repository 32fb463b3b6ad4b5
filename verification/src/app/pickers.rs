//! The pickers: each is an overlay with a cyclic cursor over a fixed list of
//! options. Opening one puts the cursor on the option that is in effect;
//! confirming applies the option under the cursor and closes the picker;
//! closing it applies nothing.

use vstd::prelude::*;
use vstd::string::*;
use crate::app::{App, Details, LogPanel, PendingAction, Pickers, UnitList};
use crate::service::{
    file_state_option_texts, time_range_index, unit_type_index, PropertiesView, TimeRange,
    UnitAction, UnitType, FILE_STATE_OPTIONS, TIME_RANGES, UNIT_TYPES,
};
use crate::text::str_eq;

verus! {

/// The number of entries of the priority picker: "all", and one per severity.
pub const PRIORITY_OPTION_COUNT: usize = 9;

/// The position after `selected` in a cycle of `len > 0` options; a picker
/// without a cursor counts as standing on the first option.
pub open spec fn cycle_next(selected: Option<usize>, len: nat) -> usize {
    match selected {
        Some(i) => ((i + 1) % (len as int)) as usize,
        None => (1int % (len as int)) as usize,
    }
}

/// The position before `selected` in a list of `len > 0` options: the last
/// option from the first one, else one position up.
pub open spec fn cycle_previous(selected: Option<usize>, len: nat) -> usize {
    match selected {
        Some(i) => if i == 0 {
            (len - 1) as usize
        } else {
            (i - 1) as usize
        },
        None => (len - 1) as usize,
    }
}

/// The first position at or after `from` at which `options` holds `value`.
pub open spec fn position_from(options: Seq<Seq<char>>, value: Seq<char>, from: int) -> Option<
    int,
>
    decreases options.len() - from,
{
    if from < 0 || from >= options.len() {
        None
    } else if options[from] == value {
        Some(from)
    } else {
        position_from(options, value, from + 1)
    }
}

/// The position of `value` in `options`, or 0 where it is not among them.
pub open spec fn option_position(options: Seq<Seq<char>>, value: Seq<char>) -> usize {
    match position_from(options, value, 0) {
        Some(i) => i as usize,
        None => 0,
    }
}

/// The position at which a picker over `options` opens when the filter it
/// sets is `current`: that of the value in effect, the first one without a
/// filter.
pub open spec fn opening_position(options: Seq<Seq<char>>, current: Option<Seq<char>>) -> usize {
    match current {
        Some(value) => option_position(options, value),
        None => 0,
    }
}

/// The texts of a list of options.
pub open spec fn option_texts(options: Seq<&'static str>) -> Seq<Seq<char>> {
    Seq::new(options.len(), |i: int| options[i]@)
}

/// The filter that the option at `position` of `options` stands for: none
/// for the first option, else the option's text.
pub open spec fn option_filter(options: Seq<Seq<char>>, position: int) -> Option<Seq<char>> {
    if position == 0 {
        None
    } else {
        Some(options[position])
    }
}

/// The position at which the priority picker opens.
pub open spec fn priority_position(filter: Option<u8>) -> usize {
    match filter {
        Some(p) => (p + 1) as usize,
        None => 0,
    }
}

fn find_option(options: &[&'static str], value: &str) -> (r: usize)
    ensures
        r == option_position(option_texts(options@), value@),
{
    let mut i: usize = 0;
    while i < options.len()
        invariant
            i <= options.len(),
            position_from(option_texts(options@), value@, 0) == position_from(
                option_texts(options@),
                value@,
                i as int,
            ),
        decreases options.len() - i,
    {
        if str_eq(options[i], value) {
            return i;
        }
        i = i + 1;
    }
    0
}

fn step_forward(selected: Option<usize>, len: usize) -> (r: usize)
    requires
        len > 0,
    ensures
        r == cycle_next(selected, len as nat),
        r < len,
{
    let i: usize = match selected {
        Some(i) => i,
        None => 0,
    };
    proof {
        crate::app::logs::lemma_next_in_cycle(i as int, len as int);
    }
    let r: usize = i % len;
    if r + 1 == len {
        0
    } else {
        r + 1
    }
}

fn step_backward(selected: Option<usize>, len: usize) -> (r: usize)
    requires
        len > 0,
    ensures
        r == cycle_previous(selected, len as nat),
{
    match selected {
        Some(i) => if i == 0 {
            len - 1
        } else {
            i - 1
        },
        None => len - 1,
    }
}

impl App {
    /// Shows or hides the help overlay.
    pub fn toggle_help(&mut self)
        ensures
            *final(self) == (App {
                pickers: Pickers { show_help: !old(self).pickers.show_help, ..old(self).pickers },
                ..*old(self)
            }),
    {
        self.pickers.show_help = !self.pickers.show_help;
    }

    /// Opens the status picker with its cursor on the sub-state filter in
    /// effect.
    pub fn open_status_picker(&mut self)
        ensures
            *final(self) == (App {
                pickers: Pickers {
                    show_status_picker: true,
                    status_picker_state: old(self).pickers.status_picker_state.with_selection(
                        Some(
                            opening_position(
                                old(self).units.unit_type.status_option_texts(),
                                old(self).units.status_filter.deep_view(),
                            ),
                        ),
                    ),
                    ..old(self).pickers
                },
                ..*old(self)
            }),
    {
        self.pickers.show_status_picker = true;
        let options = self.units.unit_type.status_options();
        assert(option_texts(options@) =~= self.units.unit_type.status_option_texts());
        let index: usize = match &self.units.status_filter {
            None => 0,
            Some(s) => find_option(options, s.as_str()),
        };
        self.pickers.status_picker_state.select(Some(index));
    }

    /// Closes the status picker.
    pub fn close_status_picker(&mut self)
        ensures
            *final(self) == (App {
                pickers: Pickers { show_status_picker: false, ..old(self).pickers },
                ..*old(self)
            }),
    {
        self.pickers.show_status_picker = false;
    }

    /// Moves the cursor of the status picker to the next option, from the
    /// last to the first.
    pub fn status_picker_next(&mut self)
        ensures
            *final(self) == (App {
                pickers: Pickers {
                    status_picker_state: old(self).pickers.status_picker_state.with_selection(
                        Some(
                            cycle_next(
                                old(self).pickers.status_picker_state.selected,
                                old(self).units.unit_type.status_option_texts().len(),
                            ),
                        ),
                    ),
                    ..old(self).pickers
                },
                ..*old(self)
            }),
    {
        let len = self.units.unit_type.status_options().len();
        let position = step_forward(self.pickers.status_picker_state.selected(), len);
        self.pickers.status_picker_state.select(Some(position));
    }

    /// Moves the cursor of the status picker to the option before, from the
    /// first to the last.
    pub fn status_picker_previous(&mut self)
        ensures
            *final(self) == (App {
                pickers: Pickers {
                    status_picker_state: old(self).pickers.status_picker_state.with_selection(
                        Some(
                            cycle_previous(
                                old(self).pickers.status_picker_state.selected,
                                old(self).units.unit_type.status_option_texts().len(),
                            ),
                        ),
                    ),
                    ..old(self).pickers
                },
                ..*old(self)
            }),
    {
        let len = self.units.unit_type.status_options().len();
        let position = step_backward(self.pickers.status_picker_state.selected(), len);
        self.pickers.status_picker_state.select(Some(position));
    }

    /// Applies the option under the cursor of the status picker as the
    /// sub-state filter, filters the units anew, and closes the picker. A
    /// picker without a cursor, or with one outside its options, applies
    /// nothing.
    pub fn status_picker_confirm(&mut self)
        ensures
            *final(self) == (App {
                units: final(self).units,
                pickers: Pickers { show_status_picker: false, ..old(self).pickers },
                ..*old(self)
            }),
            match old(self).pickers.status_picker_state.selected {
                Some(i) if i < old(self).units.unit_type.status_option_texts().len() => {
                    &&& final(self).units == (UnitList {
                        status_filter: final(self).units.status_filter,
                        filtered_indices: final(self).units.filtered_indices,
                        list_state: final(self).units.list_state,
                        ..old(self).units
                    })
                    &&& final(self).units.status_filter.deep_view() == option_filter(
                        old(self).units.unit_type.status_option_texts(),
                        i as int,
                    )
                    &&& final(self).units.shows_filtered(
                        old(self).units.services.deep_view(),
                        final(self).units.filter(),
                        old(self).units.list_state,
                    )
                    &&& final(self).units.selection_wf()
                },
                _ => final(self).units == old(self).units,
            },
    {
        let options = self.units.unit_type.status_options();
        match self.pickers.status_picker_state.selected() {
            Some(i) => {
                if i < options.len() {
                    if i == 0 {
                        self.units.status_filter = None;
                    } else {
                        self.units.status_filter = Some(String::from_str(options[i]));
                    }
                    self.update_filter();
                }
            },
            None => {},
        }
        self.pickers.show_status_picker = false;
    }

    /// Opens the category picker with its cursor on the category listed.
    pub fn open_type_picker(&mut self)
        ensures
            *final(self) == (App {
                pickers: Pickers {
                    show_type_picker: true,
                    type_picker_state: old(self).pickers.type_picker_state.with_selection(
                        Some(unit_type_index(old(self).units.unit_type) as usize),
                    ),
                    ..old(self).pickers
                },
                ..*old(self)
            }),
    {
        self.pickers.show_type_picker = true;
        let index: usize = match self.units.unit_type {
            UnitType::Service => 0,
            UnitType::Timer => 1,
            UnitType::Socket => 2,
            UnitType::Target => 3,
            UnitType::Path => 4,
        };
        self.pickers.type_picker_state.select(Some(index));
    }

    /// Closes the category picker.
    pub fn close_type_picker(&mut self)
        ensures
            *final(self) == (App {
                pickers: Pickers { show_type_picker: false, ..old(self).pickers },
                ..*old(self)
            }),
    {
        self.pickers.show_type_picker = false;
    }

    /// Moves the cursor of the category picker to the next option, from the
    /// last to the first.
    pub fn type_picker_next(&mut self)
        ensures
            *final(self) == (App {
                pickers: Pickers {
                    type_picker_state: old(self).pickers.type_picker_state.with_selection(
                        Some(cycle_next(old(self).pickers.type_picker_state.selected, 5)),
                    ),
                    ..old(self).pickers
                },
                ..*old(self)
            }),
    {
        let position = step_forward(self.pickers.type_picker_state.selected(), UNIT_TYPES.len());
        self.pickers.type_picker_state.select(Some(position));
    }

    /// Moves the cursor of the category picker to the option before, from
    /// the first to the last.
    pub fn type_picker_previous(&mut self)
        ensures
            *final(self) == (App {
                pickers: Pickers {
                    type_picker_state: old(self).pickers.type_picker_state.with_selection(
                        Some(cycle_previous(old(self).pickers.type_picker_state.selected, 5)),
                    ),
                    ..old(self).pickers
                },
                ..*old(self)
            }),
    {
        let position = step_backward(self.pickers.type_picker_state.selected(), UNIT_TYPES.len());
        self.pickers.type_picker_state.select(Some(position));
    }

    /// The category that confirming the category picker would switch to:
    /// the one under the cursor, if it differs from the one listed.
    pub open spec fn picked_unit_type(&self) -> Option<UnitType> {
        match self.pickers.type_picker_state.selected {
            Some(i) if i < 5 && UNIT_TYPES[i as int] != self.units.unit_type => Some(
                UNIT_TYPES[i as int],
            ),
            _ => None,
        }
    }

    /// Closes the category picker and, where the category under the cursor
    /// differs from the one listed, switches to it: the filters other than
    /// the category, the loaded log with its search and filters, and the
    /// remembered fact sheets are discarded. Returns whether the category
    /// changed; the units of the new category are to be listed next and
    /// handed to `load_services`.
    pub fn type_picker_confirm(&mut self) -> (switched: bool)
        ensures
            switched == old(self).picked_unit_type() is Some,
            !switched ==> *final(self) == (App {
                pickers: Pickers { show_type_picker: false, ..old(self).pickers },
                ..*old(self)
            }),
            switched ==> {
                &&& *final(self) == (App {
                    units: final(self).units,
                    log_panel: final(self).log_panel,
                    details: final(self).details,
                    pickers: Pickers { show_type_picker: false, ..old(self).pickers },
                    ..*old(self)
                })
                &&& final(self).units == (UnitList {
                    unit_type: old(self).picked_unit_type()->0,
                    status_filter: None,
                    file_state_filter: None,
                    search_query: final(self).units.search_query,
                    ..old(self).units
                })
                &&& final(self).units.search_query@.len() == 0
                &&& final(self).log_panel.is_reset_from(old(self).log_panel)
                &&& final(self).details == (Details {
                    properties_cache: final(self).details.properties_cache,
                    ..old(self).details
                })
                &&& final(self).details.properties_cache@ == Map::<
                    Seq<char>,
                    PropertiesView,
                >::empty()
            },
    {
        let mut switched = false;
        match self.pickers.type_picker_state.selected() {
            Some(i) => {
                if i < UNIT_TYPES.len() {
                    let new_type = UNIT_TYPES[i];
                    if new_type != self.units.unit_type {
                        self.units.unit_type = new_type;
                        self.units.status_filter = None;
                        self.units.file_state_filter = None;
                        self.units.search_query = String::new();
                        self.reset_log_panel();
                        self.details.properties_cache.clear();
                        switched = true;
                    }
                }
            },
            None => {},
        }
        self.pickers.show_type_picker = false;
        switched
    }

    /// Switches between system scope and per-user scope. The text,
    /// sub-state and enablement filters, the loaded log with its search and
    /// filters, and the remembered fact sheets are discarded. The units of
    /// the new scope are to be listed next and handed to `load_services`.
    pub fn toggle_user_mode(&mut self)
        ensures
            *final(self) == (App {
                units: final(self).units,
                log_panel: final(self).log_panel,
                details: final(self).details,
                ..*old(self)
            }),
            final(self).units == (UnitList {
                user_mode: !old(self).units.user_mode,
                status_filter: None,
                file_state_filter: None,
                search_query: final(self).units.search_query,
                ..old(self).units
            }),
            final(self).units.search_query@.len() == 0,
            final(self).log_panel.is_reset_from(old(self).log_panel),
            final(self).details == (Details {
                properties_cache: final(self).details.properties_cache,
                ..old(self).details
            }),
            final(self).details.properties_cache@ == Map::<Seq<char>, PropertiesView>::empty(),
    {
        self.units.user_mode = !self.units.user_mode;
        self.units.status_filter = None;
        self.units.file_state_filter = None;
        self.units.search_query = String::new();
        self.reset_log_panel();
        self.details.properties_cache.clear();
    }

    /// Discards the loaded log, its search and its filters, as a change of
    /// category or scope asks for.
    pub(crate) fn reset_log_panel(&mut self)
        ensures
            *final(self) == (App { log_panel: final(self).log_panel, ..*old(self) }),
            final(self).log_panel.is_reset_from(old(self).log_panel),
    {
        self.log_panel.last_selected_service = None;
        self.log_panel.logs = Vec::new();
        self.log_panel.cached_entry_heights_dirty = true;
        self.log_panel.log_search_query = String::new();
        self.log_panel.log_search_matches = Vec::new();
        self.log_panel.log_search_match_index = None;
        self.log_panel.log_priority_filter = None;
        self.log_panel.log_time_range = TimeRange::All;
    }

    /// Opens the priority picker with its cursor on the severity threshold
    /// in effect, or on "all" without one.
    pub fn open_priority_picker(&mut self)
        ensures
            *final(self) == (App {
                pickers: Pickers {
                    show_priority_picker: true,
                    priority_picker_state: old(self).pickers.priority_picker_state.with_selection(
                        Some(priority_position(old(self).log_panel.log_priority_filter)),
                    ),
                    ..old(self).pickers
                },
                ..*old(self)
            }),
    {
        self.pickers.show_priority_picker = true;
        let index: usize = match self.log_panel.log_priority_filter {
            None => 0,
            Some(p) => p as usize + 1,
        };
        self.pickers.priority_picker_state.select(Some(index));
    }

    /// Closes the priority picker.
    pub fn close_priority_picker(&mut self)
        ensures
            *final(self) == (App {
                pickers: Pickers { show_priority_picker: false, ..old(self).pickers },
                ..*old(self)
            }),
    {
        self.pickers.show_priority_picker = false;
    }

    /// Moves the cursor of the priority picker to the next option, from the
    /// last to the first.
    pub fn priority_picker_next(&mut self)
        ensures
            *final(self) == (App {
                pickers: Pickers {
                    priority_picker_state: old(self).pickers.priority_picker_state.with_selection(
                        Some(cycle_next(old(self).pickers.priority_picker_state.selected, 9)),
                    ),
                    ..old(self).pickers
                },
                ..*old(self)
            }),
    {
        let position = step_forward(
            self.pickers.priority_picker_state.selected(),
            PRIORITY_OPTION_COUNT,
        );
        self.pickers.priority_picker_state.select(Some(position));
    }

    /// Moves the cursor of the priority picker to the option before, from
    /// the first to the last.
    pub fn priority_picker_previous(&mut self)
        ensures
            *final(self) == (App {
                pickers: Pickers {
                    priority_picker_state: old(self).pickers.priority_picker_state.with_selection(
                        Some(cycle_previous(old(self).pickers.priority_picker_state.selected, 9)),
                    ),
                    ..old(self).pickers
                },
                ..*old(self)
            }),
    {
        let position = step_backward(
            self.pickers.priority_picker_state.selected(),
            PRIORITY_OPTION_COUNT,
        );
        self.pickers.priority_picker_state.select(Some(position));
    }

    /// Applies the option under the cursor of the priority picker as the
    /// severity threshold, marks the log as to be read anew, and closes the
    /// picker. A picker without a cursor, or with one outside its options,
    /// applies nothing.
    pub fn priority_picker_confirm(&mut self)
        ensures
            *final(self) == (App {
                log_panel: match old(self).pickers.priority_picker_state.selected {
                    Some(i) if i < 9 => LogPanel {
                        log_priority_filter: if i == 0 {
                            None
                        } else {
                            Some((i - 1) as u8)
                        },
                        log_filters_dirty: true,
                        ..old(self).log_panel
                    },
                    _ => old(self).log_panel,
                },
                pickers: Pickers { show_priority_picker: false, ..old(self).pickers },
                ..*old(self)
            }),
    {
        match self.pickers.priority_picker_state.selected() {
            Some(i) => {
                if i < PRIORITY_OPTION_COUNT {
                    if i == 0 {
                        self.log_panel.log_priority_filter = None;
                    } else {
                        self.log_panel.log_priority_filter = Some((i - 1) as u8);
                    }
                    self.log_panel.log_filters_dirty = true;
                }
            },
            None => {},
        }
        self.pickers.show_priority_picker = false;
    }

    /// Opens the time-range picker with its cursor on the range in effect.
    pub fn open_time_picker(&mut self)
        ensures
            *final(self) == (App {
                pickers: Pickers {
                    show_time_picker: true,
                    time_picker_state: old(self).pickers.time_picker_state.with_selection(
                        Some(time_range_index(old(self).log_panel.log_time_range) as usize),
                    ),
                    ..old(self).pickers
                },
                ..*old(self)
            }),
    {
        self.pickers.show_time_picker = true;
        let index: usize = match self.log_panel.log_time_range {
            TimeRange::All => 0,
            TimeRange::FifteenMinutes => 1,
            TimeRange::OneHour => 2,
            TimeRange::OneDay => 3,
            TimeRange::SevenDays => 4,
            TimeRange::Today => 5,
        };
        self.pickers.time_picker_state.select(Some(index));
    }

    /// Closes the time-range picker.
    pub fn close_time_picker(&mut self)
        ensures
            *final(self) == (App {
                pickers: Pickers { show_time_picker: false, ..old(self).pickers },
                ..*old(self)
            }),
    {
        self.pickers.show_time_picker = false;
    }

    /// Moves the cursor of the time-range picker to the next option, from
    /// the last to the first.
    pub fn time_picker_next(&mut self)
        ensures
            *final(self) == (App {
                pickers: Pickers {
                    time_picker_state: old(self).pickers.time_picker_state.with_selection(
                        Some(cycle_next(old(self).pickers.time_picker_state.selected, 6)),
                    ),
                    ..old(self).pickers
                },
                ..*old(self)
            }),
    {
        let position = step_forward(self.pickers.time_picker_state.selected(), TIME_RANGES.len());
        self.pickers.time_picker_state.select(Some(position));
    }

    /// Moves the cursor of the time-range picker to the option before, from
    /// the first to the last.
    pub fn time_picker_previous(&mut self)
        ensures
            *final(self) == (App {
                pickers: Pickers {
                    time_picker_state: old(self).pickers.time_picker_state.with_selection(
                        Some(cycle_previous(old(self).pickers.time_picker_state.selected, 6)),
                    ),
                    ..old(self).pickers
                },
                ..*old(self)
            }),
    {
        let position = step_backward(self.pickers.time_picker_state.selected(), TIME_RANGES.len());
        self.pickers.time_picker_state.select(Some(position));
    }

    /// Applies the range under the cursor of the time-range picker, marks
    /// the log as to be read anew, and closes the picker. A picker without a
    /// cursor, or with one outside its options, applies nothing.
    pub fn time_picker_confirm(&mut self)
        ensures
            *final(self) == (App {
                log_panel: match old(self).pickers.time_picker_state.selected {
                    Some(i) if i < 6 => LogPanel {
                        log_time_range: TIME_RANGES[i as int],
                        log_filters_dirty: true,
                        ..old(self).log_panel
                    },
                    _ => old(self).log_panel,
                },
                pickers: Pickers { show_time_picker: false, ..old(self).pickers },
                ..*old(self)
            }),
    {
        match self.pickers.time_picker_state.selected() {
            Some(i) => {
                if i < TIME_RANGES.len() {
                    self.log_panel.log_time_range = TIME_RANGES[i];
                    self.log_panel.log_filters_dirty = true;
                }
            },
            None => {},
        }
        self.pickers.show_time_picker = false;
    }

    /// Opens the file-state picker with its cursor on the enablement filter
    /// in effect.
    pub fn open_file_state_picker(&mut self)
        ensures
            *final(self) == (App {
                pickers: Pickers {
                    show_file_state_picker: true,
                    file_state_picker_state: old(
                        self,
                    ).pickers.file_state_picker_state.with_selection(
                        Some(
                            opening_position(
                                file_state_option_texts(),
                                old(self).units.file_state_filter.deep_view(),
                            ),
                        ),
                    ),
                    ..old(self).pickers
                },
                ..*old(self)
            }),
    {
        self.pickers.show_file_state_picker = true;
        let options = FILE_STATE_OPTIONS;
        assert(option_texts(options@) =~= file_state_option_texts());
        let index: usize = match &self.units.file_state_filter {
            None => 0,
            Some(s) => find_option(&options, s.as_str()),
        };
        self.pickers.file_state_picker_state.select(Some(index));
    }

    /// Closes the file-state picker.
    pub fn close_file_state_picker(&mut self)
        ensures
            *final(self) == (App {
                pickers: Pickers { show_file_state_picker: false, ..old(self).pickers },
                ..*old(self)
            }),
    {
        self.pickers.show_file_state_picker = false;
    }

    /// Moves the cursor of the file-state picker to the next option, from
    /// the last to the first.
    pub fn file_state_picker_next(&mut self)
        ensures
            *final(self) == (App {
                pickers: Pickers {
                    file_state_picker_state: old(
                        self,
                    ).pickers.file_state_picker_state.with_selection(
                        Some(cycle_next(old(self).pickers.file_state_picker_state.selected, 6)),
                    ),
                    ..old(self).pickers
                },
                ..*old(self)
            }),
    {
        let position = step_forward(
            self.pickers.file_state_picker_state.selected(),
            FILE_STATE_OPTIONS.len(),
        );
        self.pickers.file_state_picker_state.select(Some(position));
    }

    /// Moves the cursor of the file-state picker to the option before, from
    /// the first to the last.
    pub fn file_state_picker_previous(&mut self)
        ensures
            *final(self) == (App {
                pickers: Pickers {
                    file_state_picker_state: old(
                        self,
                    ).pickers.file_state_picker_state.with_selection(
                        Some(cycle_previous(old(self).pickers.file_state_picker_state.selected, 6)),
                    ),
                    ..old(self).pickers
                },
                ..*old(self)
            }),
    {
        let position = step_backward(
            self.pickers.file_state_picker_state.selected(),
            FILE_STATE_OPTIONS.len(),
        );
        self.pickers.file_state_picker_state.select(Some(position));
    }

    /// Applies the option under the cursor of the file-state picker as the
    /// enablement filter, filters the units anew, and closes the picker. A
    /// picker without a cursor, or with one outside its options, applies
    /// nothing.
    pub fn file_state_picker_confirm(&mut self)
        ensures
            *final(self) == (App {
                units: final(self).units,
                pickers: Pickers { show_file_state_picker: false, ..old(self).pickers },
                ..*old(self)
            }),
            match old(self).pickers.file_state_picker_state.selected {
                Some(i) if i < 6 => {
                    &&& final(self).units == (UnitList {
                        file_state_filter: final(self).units.file_state_filter,
                        filtered_indices: final(self).units.filtered_indices,
                        list_state: final(self).units.list_state,
                        ..old(self).units
                    })
                    &&& final(self).units.file_state_filter.deep_view() == option_filter(
                        file_state_option_texts(),
                        i as int,
                    )
                    &&& final(self).units.shows_filtered(
                        old(self).units.services.deep_view(),
                        final(self).units.filter(),
                        old(self).units.list_state,
                    )
                    &&& final(self).units.selection_wf()
                },
                _ => final(self).units == old(self).units,
            },
    {
        match self.pickers.file_state_picker_state.selected() {
            Some(i) => {
                if i < FILE_STATE_OPTIONS.len() {
                    if i == 0 {
                        self.units.file_state_filter = None;
                    } else {
                        self.units.file_state_filter = Some(String::from_str(FILE_STATE_OPTIONS[i]));
                    }
                    self.update_filter();
                }
            },
            None => {},
        }
        self.pickers.show_file_state_picker = false;
    }

    /// Opens the action picker for the unit under the cursor, with the
    /// actions its state allows and the cursor on the first. Without a unit
    /// under the cursor nothing changes.
    pub fn open_action_picker(&mut self)
        ensures
            match old(self).units.selected_unit_index() {
                Some(i) => {
                    &&& *final(self) == (App { pickers: final(self).pickers, ..*old(self) })
                    &&& final(self).pickers == (Pickers {
                        available_actions: final(self).pickers.available_actions,
                        action_picker_state: old(self).pickers.action_picker_state.with_selection(
                            Some(0),
                        ),
                        show_action_picker: true,
                        ..old(self).pickers
                    })
                    &&& final(self).pickers.available_actions@ == UnitAction::available_for(
                        old(self).units.services@[i].sub@,
                        old(self).units.services@[i].file_state.deep_view(),
                    )
                },
                None => *final(self) == *old(self),
            },
    {
        let actions = match self.selected_unit() {
            Some(unit) => {
                let file_state: Option<&str> = match &unit.file_state {
                    Some(s) => Some(s.as_str()),
                    None => None,
                };
                UnitAction::available_actions(unit.sub.as_str(), file_state)
            },
            None => {
                return ;
            },
        };
        self.pickers.available_actions = actions;
        self.pickers.action_picker_state.select(Some(0));
        self.pickers.show_action_picker = true;
    }

    /// Closes the action picker.
    pub fn close_action_picker(&mut self)
        ensures
            *final(self) == (App {
                pickers: Pickers { show_action_picker: false, ..old(self).pickers },
                ..*old(self)
            }),
    {
        self.pickers.show_action_picker = false;
    }

    /// Moves the cursor of the action picker to the next action, from the
    /// last to the first. Without actions nothing changes.
    pub fn action_picker_next(&mut self)
        ensures
            *final(self) == (App {
                pickers: if old(self).pickers.available_actions@.len() == 0 {
                    old(self).pickers
                } else {
                    Pickers {
                        action_picker_state: old(self).pickers.action_picker_state.with_selection(
                            Some(
                                cycle_next(
                                    old(self).pickers.action_picker_state.selected,
                                    old(self).pickers.available_actions@.len(),
                                ),
                            ),
                        ),
                        ..old(self).pickers
                    }
                },
                ..*old(self)
            }),
    {
        let len = self.pickers.available_actions.len();
        if len == 0 {
            return ;
        }
        let position = step_forward(self.pickers.action_picker_state.selected(), len);
        self.pickers.action_picker_state.select(Some(position));
    }

    /// Moves the cursor of the action picker to the action before, from the
    /// first to the last. Without actions nothing changes.
    pub fn action_picker_previous(&mut self)
        ensures
            *final(self) == (App {
                pickers: if old(self).pickers.available_actions@.len() == 0 {
                    old(self).pickers
                } else {
                    Pickers {
                        action_picker_state: old(self).pickers.action_picker_state.with_selection(
                            Some(
                                cycle_previous(
                                    old(self).pickers.action_picker_state.selected,
                                    old(self).pickers.available_actions@.len(),
                                ),
                            ),
                        ),
                        ..old(self).pickers
                    }
                },
                ..*old(self)
            }),
    {
        let len = self.pickers.available_actions.len();
        if len == 0 {
            return ;
        }
        let position = step_backward(self.pickers.action_picker_state.selected(), len);
        self.pickers.action_picker_state.select(Some(position));
    }

    /// The action under the cursor of the action picker.
    pub open spec fn picked_action(&self) -> Option<UnitAction> {
        match self.pickers.action_picker_state.selected {
            Some(i) if i < self.pickers.available_actions@.len() => Some(
                self.pickers.available_actions@[i as int],
            ),
            _ => None,
        }
    }

    /// The name that goes to the confirmation dialog with `action`: that of
    /// the unit under the cursor of the unit list, and the empty name for an
    /// action on the manager itself or without a unit under the cursor.
    pub open spec fn action_target(&self, action: UnitAction) -> Seq<char> {
        if action == UnitAction::DaemonReload {
            Seq::empty()
        } else {
            match self.units.selected_unit_name() {
                Some(name) => name,
                None => Seq::empty(),
            }
        }
    }

    /// Takes the action under the cursor of the action picker to the
    /// confirmation dialog and closes the picker. The action is for the unit
    /// under the cursor of the unit list; an action on the manager itself is
    /// for no unit and carries the empty name. Without an action under the
    /// cursor nothing changes.
    pub fn action_picker_confirm(&mut self)
        ensures
            match old(self).picked_action() {
                Some(action) => {
                    &&& *final(self) == (App {
                        action: final(self).action,
                        pickers: Pickers { show_action_picker: false, ..old(self).pickers },
                        ..*old(self)
                    })
                    &&& final(self).action == (PendingAction {
                        show_confirm: true,
                        confirm_action: Some(action),
                        confirm_unit_name: final(self).action.confirm_unit_name,
                        ..old(self).action
                    })
                    &&& final(self).action.confirm_unit_name.deep_view() == Some(
                        old(self).action_target(action),
                    )
                },
                None => *final(self) == *old(self),
            },
    {
        let action = match self.pickers.action_picker_state.selected() {
            Some(i) => {
                if i < self.pickers.available_actions.len() {
                    self.pickers.available_actions[i]
                } else {
                    return ;
                }
            },
            None => {
                return ;
            },
        };
        let unit_name = match action {
            UnitAction::DaemonReload => String::new(),
            _ => match self.selected_unit() {
                Some(unit) => unit.unit.clone(),
                None => String::new(),
            },
        };
        self.action.confirm_action = Some(action);
        self.action.confirm_unit_name = Some(unit_name);
        self.pickers.show_action_picker = false;
        self.action.show_confirm = true;
    }
}

impl LogPanel {
    /// This panel is `before` after a change of category or scope: no log is
    /// loaded, the search is clear, no log filter is set, and the anchor and
    /// the flags that say what is shown are as before.
    pub open spec fn is_reset_from(&self, before: LogPanel) -> bool {
        &&& *self == (LogPanel {
            logs: self.logs,
            last_selected_service: None,
            log_search_query: self.log_search_query,
            log_search_matches: self.log_search_matches,
            log_search_match_index: None,
            log_priority_filter: None,
            log_time_range: TimeRange::All,
            cached_entry_heights_dirty: true,
            ..before
        })
        &&& self.logs@.len() == 0
        &&& self.search_is_clear()
    }
}

} // verus!
