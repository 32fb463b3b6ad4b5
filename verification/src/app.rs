//! The session state and its model.

use vstd::prelude::*;
use crate::service::{
    LogEntry, PropertiesView, SystemdUnit, TimeRange, UnitAction, UnitProperties, UnitType,
};
use crate::text::str_eq;
use crate::viewport::LogScroll;

pub mod actions;
pub mod details;
pub mod logs;
pub mod pickers;
pub mod selection;
pub mod steps;
pub mod unit_file;

verus! {

/// A cursor into a list: the selected position, if any, and the position of
/// the first row on screen.
#[derive(Debug, Clone, Copy, PartialEq, Eq, Structural)]
pub struct ListState {
    pub offset: usize,
    pub selected: Option<usize>,
}

impl ListState {
    /// The cursor after selecting `index`. Clearing the selection also
    /// returns the list to its first row.
    pub open spec fn with_selection(self, index: Option<usize>) -> ListState {
        ListState {
            offset: if index is None {
                0
            } else {
                self.offset
            },
            selected: index,
        }
    }

    /// The selected position.
    pub fn selected(&self) -> (r: Option<usize>)
        ensures
            r == self.selected,
    {
        self.selected
    }

    /// The position of the first row on screen.
    pub fn offset(&self) -> (r: usize)
        ensures
            r == self.offset,
    {
        self.offset
    }

    /// Selects `index`, or clears the selection.
    pub fn select(&mut self, index: Option<usize>)
        ensures
            *final(self) == old(self).with_selection(index),
    {
        self.selected = index;
        if index.is_none() {
            self.offset = 0;
        }
    }

    /// The cursor with its first row moved to `offset`.
    pub fn with_offset(self, offset: usize) -> (r: Self)
        ensures
            r == (ListState { offset, selected: self.selected }),
    {
        ListState { offset, selected: self.selected }
    }

    /// The cursor with `selected` as its selection and the first row kept.
    pub fn with_selected(self, selected: Option<usize>) -> (r: Self)
        ensures
            r == (ListState { offset: self.offset, selected }),
    {
        ListState { offset: self.offset, selected }
    }
}

impl Default for ListState {
    fn default() -> (r: Self)
        ensures
            r == (ListState { offset: 0, selected: None }),
    {
        ListState { offset: 0, selected: None }
    }
}

/// One remembered fact sheet.
pub struct CacheEntry {
    pub name: String,
    pub properties: UnitProperties,
}

/// The fact sheets read so far, by unit name.
pub struct PropertiesCache {
    entries: Vec<CacheEntry>,
}

/// The map that a sequence of entries stands for: a later entry replaces an
/// earlier one of the same name.
pub open spec fn entries_map(entries: Seq<CacheEntry>) -> Map<Seq<char>, PropertiesView>
    decreases entries.len(),
{
    if entries.len() == 0 {
        Map::empty()
    } else {
        entries_map(entries.drop_last()).insert(entries.last().name@, entries.last().properties@)
    }
}

impl View for PropertiesCache {
    type V = Map<Seq<char>, PropertiesView>;

    closed spec fn view(&self) -> Map<Seq<char>, PropertiesView> {
        entries_map(self.entries@)
    }
}

impl PropertiesCache {
    /// A cache without any fact sheet.
    pub fn new() -> (r: Self)
        ensures
            r@ == Map::<Seq<char>, PropertiesView>::empty(),
    {
        PropertiesCache { entries: Vec::new() }
    }

    /// The fact sheet remembered for `name`, if there is one.
    pub fn get(&self, name: &str) -> (r: Option<&UnitProperties>)
        ensures
            r is Some == self@.contains_key(name@),
            r matches Some(p) ==> p@ == self@[name@],
    {
        let mut i: usize = self.entries.len();
        assert(self.entries@.take(i as int) =~= self.entries@);
        while i > 0
            invariant
                i <= self.entries.len(),
                entries_map(self.entries@.take(i as int)).contains_key(name@)
                    == self@.contains_key(name@),
                self@.contains_key(name@) ==> entries_map(self.entries@.take(i as int))[name@]
                    == self@[name@],
            decreases i,
        {
            let ghost upto = self.entries@.take(i as int);
            assert(upto.drop_last() =~= self.entries@.take(i as int - 1));
            assert(upto.last() == self.entries@[i as int - 1]);
            if str_eq(self.entries[i - 1].name.as_str(), name) {
                return Some(&self.entries[i - 1].properties);
            }
            i = i - 1;
        }
        proof {
            assert(self.entries@.take(0).len() == 0);
        }
        None
    }

    /// Remembers `properties` for `name`, in place of what was remembered
    /// for it before.
    pub fn insert(&mut self, name: String, properties: UnitProperties)
        ensures
            final(self)@ == old(self)@.insert(name@, properties@),
    {
        let ghost before = self.entries@;
        self.entries.push(CacheEntry { name, properties });
        assert(self.entries@.drop_last() =~= before);
    }

    /// Forgets every fact sheet.
    pub fn clear(&mut self)
        ensures
            final(self)@ == Map::<Seq<char>, PropertiesView>::empty(),
    {
        self.entries.clear();
    }

    /// Whether no fact sheet is remembered.
    pub fn is_empty(&self) -> (r: bool)
        ensures
            r == (self@ == Map::<Seq<char>, PropertiesView>::empty()),
    {
        let r = self.entries.len() == 0;
        proof {
            if !r {
                assert(self@.contains_key(self.entries@.last().name@));
            }
        }
        r
    }
}

/// The unit inventory with its filters and the cursor of the unit list.
pub struct UnitList {
    /// The units of the current category and scope, as last listed.
    pub services: Vec<SystemdUnit>,
    /// The indices into `services` of the units that pass every filter.
    pub filtered_indices: Vec<usize>,
    /// The cursor of the unit list: a position in `filtered_indices`.
    pub list_state: ListState,
    /// The text filter over unit names and descriptions.
    pub search_query: String,
    /// The operator is typing the text filter.
    pub search_mode: bool,
    /// The sub-state filter.
    pub status_filter: Option<String>,
    /// The enablement filter.
    pub file_state_filter: Option<String>,
    pub unit_type: UnitType,
    /// The scope: per-user units when set, system units otherwise.
    pub user_mode: bool,
    /// The failure of the last listing, if it failed.
    pub error: Option<String>,
    /// When the units were last listed, as the caller's clock reads.
    pub last_refreshed: Option<i64>,
}

impl UnitList {
    /// The state this part of a session starts in.
    pub open spec fn is_initial(&self) -> bool {
        &&& self.services.deep_view().len() == 0
        &&& self.filtered_indices@.len() == 0
        &&& self.list_state == (ListState { offset: 0, selected: None })
        &&& self.search_query@.len() == 0
        &&& !self.search_mode
        &&& self.status_filter is None
        &&& self.file_state_filter is None
        &&& self.unit_type == UnitType::Service
        &&& !self.user_mode
        &&& self.error is None
        &&& self.last_refreshed is None
    }

    /// This part of the state as a session starts with it.
    pub fn new() -> (r: Self)
        ensures
            r.is_initial(),
    {
        UnitList {
            services: Vec::new(),
            filtered_indices: Vec::new(),
            list_state: ListState::default(),
            search_query: String::new(),
            search_mode: false,
            status_filter: None,
            file_state_filter: None,
            unit_type: UnitType::Service,
            user_mode: false,
            error: None,
            last_refreshed: None,
        }
    }
}

/// The log of the selected unit: records, anchor, search and tailing.
pub struct LogPanel {
    /// The log records of the selected unit, oldest first.
    pub logs: Vec<LogEntry>,
    /// Where the log panel is anchored.
    pub logs_scroll: LogScroll,
    /// The unit whose log is loaded.
    pub last_selected_service: Option<String>,
    pub show_logs: bool,
    /// New records are appended as they arrive.
    pub live_tail: bool,
    pub log_search_query: String,
    pub log_search_mode: bool,
    /// The indices of the records that match the log search.
    pub log_search_matches: Vec<usize>,
    /// The current match: a position in `log_search_matches`.
    pub log_search_match_index: Option<usize>,
    /// The least severe priority still read from the log, if limited.
    pub log_priority_filter: Option<u8>,
    pub log_time_range: TimeRange,
    /// The log must be read anew.
    pub log_filters_dirty: bool,
    /// Record heights computed earlier no longer hold.
    pub cached_entry_heights_dirty: bool,
}

impl LogPanel {
    /// The state this part of a session starts in.
    pub open spec fn is_initial(&self) -> bool {
        &&& self.logs.deep_view().len() == 0
        &&& self.logs_scroll == LogScroll::Fixed(0)
        &&& self.last_selected_service is None
        &&& !self.show_logs
        &&& !self.live_tail
        &&& self.log_search_query@.len() == 0
        &&& !self.log_search_mode
        &&& self.log_search_matches@.len() == 0
        &&& self.log_search_match_index is None
        &&& self.log_priority_filter is None
        &&& self.log_time_range == TimeRange::All
        &&& !self.log_filters_dirty
        &&& self.cached_entry_heights_dirty
    }

    /// This part of the state as a session starts with it.
    pub fn new() -> (r: Self)
        ensures
            r.is_initial(),
    {
        LogPanel {
            logs: Vec::new(),
            logs_scroll: LogScroll::Fixed(0),
            last_selected_service: None,
            show_logs: false,
            live_tail: false,
            log_search_query: String::new(),
            log_search_mode: false,
            log_search_matches: Vec::new(),
            log_search_match_index: None,
            log_priority_filter: None,
            log_time_range: TimeRange::All,
            log_filters_dirty: false,
            cached_entry_heights_dirty: true,
        }
    }
}

/// The pickers and the help overlay, each with its cursor.
pub struct Pickers {
    pub show_help: bool,
    pub show_status_picker: bool,
    pub status_picker_state: ListState,
    pub show_type_picker: bool,
    pub type_picker_state: ListState,
    pub show_priority_picker: bool,
    pub priority_picker_state: ListState,
    pub show_time_picker: bool,
    pub time_picker_state: ListState,
    pub show_file_state_picker: bool,
    pub file_state_picker_state: ListState,
    pub show_action_picker: bool,
    pub action_picker_state: ListState,
    /// The entries of the action picker.
    pub available_actions: Vec<UnitAction>,
}

impl Pickers {
    /// The state this part of a session starts in.
    pub open spec fn is_initial(&self) -> bool {
        &&& !self.show_help
        &&& !self.show_status_picker
        &&& self.status_picker_state == (ListState { offset: 0, selected: None })
        &&& !self.show_type_picker
        &&& self.type_picker_state == (ListState { offset: 0, selected: None })
        &&& !self.show_priority_picker
        &&& self.priority_picker_state == (ListState { offset: 0, selected: None })
        &&& !self.show_time_picker
        &&& self.time_picker_state == (ListState { offset: 0, selected: None })
        &&& !self.show_file_state_picker
        &&& self.file_state_picker_state == (ListState { offset: 0, selected: None })
        &&& !self.show_action_picker
        &&& self.action_picker_state == (ListState { offset: 0, selected: None })
        &&& self.available_actions@.len() == 0
    }

    /// This part of the state as a session starts with it.
    pub fn new() -> (r: Self)
        ensures
            r.is_initial(),
    {
        Pickers {
            show_help: false,
            show_status_picker: false,
            status_picker_state: ListState::default(),
            show_type_picker: false,
            type_picker_state: ListState::default(),
            show_priority_picker: false,
            priority_picker_state: ListState::default(),
            show_time_picker: false,
            time_picker_state: ListState::default(),
            show_file_state_picker: false,
            file_state_picker_state: ListState::default(),
            show_action_picker: false,
            action_picker_state: ListState::default(),
            available_actions: Vec::new(),
        }
    }
}

/// The one action that awaits confirmation, runs, or has settled.
pub struct PendingAction {
    pub show_confirm: bool,
    /// The action awaiting confirmation, running, or settled.
    pub confirm_action: Option<UnitAction>,
    /// The unit the action is for; empty for a manager-wide action.
    pub confirm_unit_name: Option<String>,
    /// The action was handed out and has not reported back.
    pub action_in_progress: bool,
    /// How the action ended, once it has.
    pub action_result: Option<Result<String, String>>,
    /// A result of the running action is still to be delivered.
    pub awaiting_action: bool,
    /// The unit list read after the action is still to be delivered.
    pub awaiting_refresh: bool,
}

impl PendingAction {
    /// The state this part of a session starts in.
    pub open spec fn is_initial(&self) -> bool {
        &&& !self.show_confirm
        &&& self.confirm_action is None
        &&& self.confirm_unit_name is None
        &&& !self.action_in_progress
        &&& self.action_result is None
        &&& !self.awaiting_action
        &&& !self.awaiting_refresh
    }

    /// This part of the state as a session starts with it.
    pub fn new() -> (r: Self)
        ensures
            r.is_initial(),
    {
        PendingAction {
            show_confirm: false,
            confirm_action: None,
            confirm_unit_name: None,
            action_in_progress: false,
            action_result: None,
            awaiting_action: false,
            awaiting_refresh: false,
        }
    }
}

/// The details overlay and the fact sheets read so far.
pub struct Details {
    pub show_details: bool,
    pub detail_scroll: usize,
    pub detail_properties: Option<UnitProperties>,
    pub detail_unit_name: Option<String>,
    pub detail_content_height: usize,
    /// The fact sheets read so far in this category and scope.
    pub properties_cache: PropertiesCache,
}

impl Details {
    /// The state this part of a session starts in.
    pub open spec fn is_initial(&self) -> bool {
        &&& !self.show_details
        &&& self.detail_scroll == 0
        &&& self.detail_properties is None
        &&& self.detail_unit_name is None
        &&& self.detail_content_height == 0
        &&& self.properties_cache@ == Map::<Seq<char>, PropertiesView>::empty()
    }

    /// This part of the state as a session starts with it.
    pub fn new() -> (r: Self)
        ensures
            r.is_initial(),
    {
        Details {
            show_details: false,
            detail_scroll: 0,
            detail_properties: None,
            detail_unit_name: None,
            detail_content_height: 0,
            properties_cache: PropertiesCache::new(),
        }
    }
}

/// The viewer of a unit's definition file.
pub struct UnitFileViewer {
    pub show_unit_file: bool,
    pub unit_file_content: Vec<String>,
    pub unit_file_scroll: usize,
    pub unit_file_unit_name: Option<String>,
    pub unit_file_search_query: String,
    pub unit_file_search_mode: bool,
    pub unit_file_search_matches: Vec<usize>,
    pub unit_file_search_match_index: Option<usize>,
}

impl UnitFileViewer {
    /// The state this part of a session starts in.
    pub open spec fn is_initial(&self) -> bool {
        &&& !self.show_unit_file
        &&& self.unit_file_content.deep_view().len() == 0
        &&& self.unit_file_scroll == 0
        &&& self.unit_file_unit_name is None
        &&& self.unit_file_search_query@.len() == 0
        &&& !self.unit_file_search_mode
        &&& self.unit_file_search_matches@.len() == 0
        &&& self.unit_file_search_match_index is None
    }

    /// This part of the state as a session starts with it.
    pub fn new() -> (r: Self)
        ensures
            r.is_initial(),
    {
        UnitFileViewer {
            show_unit_file: false,
            unit_file_content: Vec::new(),
            unit_file_scroll: 0,
            unit_file_unit_name: None,
            unit_file_search_query: String::new(),
            unit_file_search_mode: false,
            unit_file_search_matches: Vec::new(),
            unit_file_search_match_index: None,
        }
    }
}

/// The state of one session of the panel. All changes go through its
/// methods; the presentation layer reads the fields.
pub struct App {
    /// The unit inventory with its filters and the cursor of the unit list.
    pub units: UnitList,
    /// The log of the selected unit: records, anchor, search and tailing.
    pub log_panel: LogPanel,
    /// The pickers and the help overlay, each with its cursor.
    pub pickers: Pickers,
    /// The one action that awaits confirmation, runs, or has settled.
    pub action: PendingAction,
    /// The details overlay and the fact sheets read so far.
    pub details: Details,
    /// The viewer of a unit's definition file.
    pub unit_file: UnitFileViewer,
    /// The operator asked to leave.
    pub should_quit: bool,
    /// A one-line notice for the header.
    pub status_message: Option<String>,
}

impl App {
    /// The state a session starts in: the service category in system scope, no
    /// units listed yet, no filter, no overlay, nothing pending.
    pub open spec fn is_initial(&self) -> bool {
        &&& self.units.is_initial()
        &&& self.log_panel.is_initial()
        &&& self.pickers.is_initial()
        &&& self.action.is_initial()
        &&& self.details.is_initial()
        &&& self.unit_file.is_initial()
        &&& !self.should_quit
        &&& self.status_message is None
    }

    /// The state a session starts in. The units are listed afterwards, with
    /// `load_services`.
    pub fn new() -> (r: Self)
        ensures
            r.is_initial(),
    {
        App {
            units: UnitList::new(),
            log_panel: LogPanel::new(),
            pickers: Pickers::new(),
            action: PendingAction::new(),
            details: Details::new(),
            unit_file: UnitFileViewer::new(),
            should_quit: false,
            status_message: None,
        }
    }
}

} // verus!
