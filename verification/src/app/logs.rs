//! The log viewport engine: loading and tailing the log of the selected
//! unit, scrolling, and searching in the records.

use vstd::prelude::*;
use vstd::string::*;
use crate::app::{App, LogPanel};
use crate::service::{LogEntry, LogRecord, TimeRange};
use crate::text::{indices_where, is_infix, lowercase_of, str_contains, to_lowercase};
use crate::viewport::{bottom_scroll_index, is_bottom_index, LogScroll};

verus! {

/// The number of most recent records read when a log is loaded.
pub const LOG_LOAD_LIMIT: usize = 1000;

/// What to read from the log daemon to load a unit's log.
#[derive(Debug, Clone)]
pub struct LogQuery {
    pub unit: String,
    pub lines: usize,
    pub user_mode: bool,
    pub priority: Option<u8>,
    pub time_range: TimeRange,
}

/// What to read from the log daemon to continue a unit's log after the last
/// record held.
#[derive(Debug, Clone)]
pub struct TailQuery {
    pub unit: String,
    pub cursor: String,
    pub user_mode: bool,
    pub priority: Option<u8>,
    pub time_range: TimeRange,
}

/// The indices of the first `n` records whose message holds the query,
/// without regard to case.
pub open spec fn log_matches_prefix(logs: Seq<LogRecord>, query: Seq<char>, n: nat) -> Seq<usize> {
    indices_where(n, |i: int| is_infix(lowercase_of(query), lowercase_of(logs[i].message)))
}

/// The indices of the records whose message holds the query, without regard
/// to case; none for the empty query.
pub open spec fn log_matches(logs: Seq<LogRecord>, query: Seq<char>) -> Seq<usize> {
    if query.len() == 0 {
        Seq::empty()
    } else {
        log_matches_prefix(logs, query, logs.len())
    }
}

/// The position after `position` in a cycle of `len > 0` matches; the first
/// one where no match is current.
pub open spec fn next_match(position: Option<usize>, len: nat) -> usize {
    match position {
        Some(i) => ((i + 1) % (len as int)) as usize,
        None => 0,
    }
}

/// The position before `position` in a cycle of `len > 0` matches; the last
/// one where no match is current.
pub open spec fn previous_match(position: Option<usize>, len: nat) -> usize {
    match position {
        Some(i) => ((i + len - 1) % (len as int)) as usize,
        None => (len - 1) as usize,
    }
}

/// The anchor after a jump to record `line`: the panel moves to the record
/// unless it starts at or before it and the record is within `visible`
/// records of the start.
pub open spec fn anchor_showing(scroll: LogScroll, line: usize, visible: usize) -> LogScroll {
    match scroll {
        LogScroll::Fixed(s) => if line < s || line >= s + visible {
            LogScroll::Fixed(line)
        } else {
            scroll
        },
        LogScroll::TrackLatest => LogScroll::Fixed(line),
    }
}

/// The anchor after scrolling up by `amount` records.
pub open spec fn anchor_up(scroll: LogScroll, amount: usize) -> LogScroll {
    match scroll {
        LogScroll::Fixed(s) => LogScroll::Fixed(
            if s >= amount {
                (s - amount) as usize
            } else {
                0
            },
        ),
        LogScroll::TrackLatest => LogScroll::TrackLatest,
    }
}

/// The anchor after scrolling down by `amount` records in a log of `len`
/// records: never past the last record, and unchanged in an empty log.
pub open spec fn anchor_down(scroll: LogScroll, amount: usize, len: nat) -> LogScroll {
    if len == 0 {
        scroll
    } else {
        match scroll {
            LogScroll::Fixed(s) => LogScroll::Fixed(
                if s + amount < len {
                    (s + amount) as usize
                } else {
                    (len - 1) as usize
                },
            ),
            LogScroll::TrackLatest => LogScroll::TrackLatest,
        }
    }
}

/// The anchor once the panel's geometry is known: the newest content
/// resolves to the bottom index, and a fixed anchor is held at or above it.
pub open spec fn anchor_resolved(scroll: LogScroll, records: nat, bottom: usize) -> LogScroll {
    match scroll {
        LogScroll::TrackLatest => LogScroll::Fixed(bottom),
        LogScroll::Fixed(s) => if records == 0 {
            LogScroll::Fixed(0)
        } else if s <= bottom {
            scroll
        } else {
            LogScroll::Fixed(bottom)
        },
    }
}

/// The single record that stands in for a log that could not be read.
pub open spec fn fetch_error_record(error: Seq<char>) -> LogRecord {
    LogRecord {
        timestamp: None,
        priority: None,
        pid: None,
        identifier: None,
        message: "Error fetching logs: "@ + error,
        boot_id: None,
        invocation_id: None,
        cursor: None,
    }
}

/// One step forward in a cycle of `len` positions.
pub proof fn lemma_next_in_cycle(i: int, len: int)
    requires
        0 <= i,
        0 < len,
    ensures
        (i + 1) % len == if i % len + 1 == len {
            0
        } else {
            i % len + 1
        },
{
    let q = i / len;
    let r = i % len;
    vstd::arithmetic::div_mod::lemma_fundamental_div_mod(i, len);
    if r + 1 == len {
        assert(i + 1 == (q + 1) * len + 0) by (nonlinear_arith)
            requires
                i == len * q + r,
                r + 1 == len,
        ;
        vstd::arithmetic::div_mod::lemma_fundamental_div_mod_converse(i + 1, len, q + 1, 0);
    } else {
        assert(i + 1 == q * len + (r + 1)) by (nonlinear_arith)
            requires
                i == len * q + r,
        ;
        vstd::arithmetic::div_mod::lemma_fundamental_div_mod_converse(i + 1, len, q, r + 1);
    }
}

/// One step backward in a cycle of `len` positions.
pub proof fn lemma_previous_in_cycle(i: int, len: int)
    requires
        0 <= i,
        0 < len,
    ensures
        (i + len - 1) % len == if i % len == 0 {
            len - 1
        } else {
            i % len - 1
        },
{
    let q = i / len;
    let r = i % len;
    vstd::arithmetic::div_mod::lemma_fundamental_div_mod(i, len);
    if r == 0 {
        assert(i + len - 1 == q * len + (len - 1)) by (nonlinear_arith)
            requires
                i == len * q + r,
                r == 0,
        ;
        vstd::arithmetic::div_mod::lemma_fundamental_div_mod_converse(
            i + len - 1,
            len,
            q,
            len - 1,
        );
    } else {
        assert(i + len - 1 == (q + 1) * len + (r - 1)) by (nonlinear_arith)
            requires
                i == len * q + r,
        ;
        vstd::arithmetic::div_mod::lemma_fundamental_div_mod_converse(
            i + len - 1,
            len,
            q + 1,
            r - 1,
        );
    }
}

impl LogPanel {
    /// The log search is empty: no query, no matches, no current match.
    pub open spec fn search_is_clear(&self) -> bool {
        &&& self.log_search_query@.len() == 0
        &&& self.log_search_matches@.len() == 0
        &&& self.log_search_match_index is None
    }

    /// The cursor after which the log can be continued: that of the last
    /// record, where a unit's log is loaded and its last record carries one.
    pub open spec fn tail_cursor(&self) -> Option<Seq<char>> {
        if self.last_selected_service is Some && self.logs@.len() > 0 {
            self.logs@.last().cursor.deep_view()
        } else {
            None
        }
    }
}

impl App {
    /// The log must be read anew: another unit is under the cursor than the
    /// one whose log is loaded, or the log filters changed.
    pub open spec fn log_reload_due(&self) -> bool {
        self.units.selected_unit_name() != self.log_panel.last_selected_service.deep_view()
            || self.log_panel.log_filters_dirty
    }

    /// Decides whether the log must be read anew. If so, the records and the
    /// search are discarded, the anchor returns to the first record, and the
    /// query to run for the unit under the cursor is returned; its result
    /// goes to `logs_loaded`. Without a unit under the cursor there is
    /// nothing to read.
    pub fn load_logs_for_selected(&mut self) -> (r: Option<LogQuery>)
        ensures
            !old(self).log_reload_due() ==> r is None && *final(self) == *old(self),
            old(self).log_reload_due() ==> {
                &&& *final(self) == (App { log_panel: final(self).log_panel, ..*old(self) })
                &&& final(self).log_panel == (LogPanel {
                    logs: final(self).log_panel.logs,
                    logs_scroll: LogScroll::Fixed(0),
                    last_selected_service: final(self).log_panel.last_selected_service,
                    log_search_query: final(self).log_panel.log_search_query,
                    log_search_matches: final(self).log_panel.log_search_matches,
                    log_search_match_index: None,
                    log_filters_dirty: false,
                    cached_entry_heights_dirty: true,
                    ..old(self).log_panel
                })
                &&& final(self).log_panel.logs@.len() == 0
                &&& final(self).log_panel.search_is_clear()
                &&& final(self).log_panel.last_selected_service.deep_view()
                    == old(self).units.selected_unit_name()
                &&& r is Some == old(self).units.selected_unit_name() is Some
                &&& r matches Some(q) ==> {
                    &&& Some(q.unit@) == old(self).units.selected_unit_name()
                    &&& q.lines == LOG_LOAD_LIMIT
                    &&& q.user_mode == old(self).units.user_mode
                    &&& q.priority == old(self).log_panel.log_priority_filter
                    &&& q.time_range == old(self).log_panel.log_time_range
                }
            },
    {
        let current: Option<String> = match self.selected_unit() {
            Some(unit) => Some(unit.unit.clone()),
            None => None,
        };
        let same = match (&current, &self.log_panel.last_selected_service) {
            (Some(a), Some(b)) => *a == *b,
            (None, None) => true,
            _ => false,
        };
        if same && !self.log_panel.log_filters_dirty {
            return None;
        }
        self.log_panel.cached_entry_heights_dirty = true;
        self.log_panel.log_filters_dirty = false;
        self.log_panel.logs_scroll = LogScroll::Fixed(0);
        self.log_panel.log_search_query = String::new();
        self.log_panel.log_search_matches = Vec::new();
        self.log_panel.log_search_match_index = None;
        self.log_panel.logs = Vec::new();
        match current {
            Some(unit) => {
                self.log_panel.last_selected_service = Some(unit.clone());
                Some(
                    LogQuery {
                        unit,
                        lines: LOG_LOAD_LIMIT,
                        user_mode: self.units.user_mode,
                        priority: self.log_panel.log_priority_filter,
                        time_range: self.log_panel.log_time_range,
                    },
                )
            },
            None => {
                self.log_panel.last_selected_service = None;
                None
            },
        }
    }

    /// Takes in what reading a unit's log brought, and anchors the panel at
    /// the newest content. Records that were read replace the buffer. A
    /// failure is shown as a single record that carries the error.
    pub fn logs_loaded(&mut self, fetched: Result<Vec<LogEntry>, String>)
        ensures
            *final(self) == (App { log_panel: final(self).log_panel, ..*old(self) }),
            final(self).log_panel == (LogPanel {
                logs: final(self).log_panel.logs,
                logs_scroll: LogScroll::TrackLatest,
                ..old(self).log_panel
            }),
            match fetched {
                Ok(records) => final(self).log_panel.logs == records,
                Err(e) => final(self).log_panel.logs.deep_view() == seq![fetch_error_record(e@)],
            },
    {
        self.log_panel.logs_scroll = LogScroll::TrackLatest;
        match fetched {
            Ok(records) => {
                self.log_panel.logs = records;
            },
            Err(e) => {
                let mut records: Vec<LogEntry> = Vec::new();
                records.push(
                    LogEntry {
                        timestamp: None,
                        priority: None,
                        pid: None,
                        identifier: None,
                        message: String::from_str("Error fetching logs: ").concat(e.as_str()),
                        boot_id: None,
                        invocation_id: None,
                        cursor: None,
                    },
                );
                assert(records.deep_view() =~= seq![fetch_error_record(e@)]);
                self.log_panel.logs = records;
            },
        }
    }

    /// Marks the log as to be read anew.
    pub fn mark_logs_dirty(&mut self)
        ensures
            *final(self) == (App {
                log_panel: LogPanel { log_filters_dirty: true, ..old(self).log_panel },
                ..*old(self)
            }),
    {
        self.log_panel.log_filters_dirty = true;
    }

    /// Marks record heights computed earlier as no longer valid.
    pub fn invalidate_log_entry_heights_cache(&mut self)
        ensures
            *final(self) == (App {
                log_panel: LogPanel { cached_entry_heights_dirty: true, ..old(self).log_panel },
                ..*old(self)
            }),
    {
        self.log_panel.cached_entry_heights_dirty = true;
    }

    /// Scrolls the log up by `amount` records and stops following the log.
    pub fn scroll_logs_up(&mut self, amount: usize)
        ensures
            *final(self) == (App {
                log_panel: LogPanel {
                    live_tail: false,
                    logs_scroll: anchor_up(old(self).log_panel.logs_scroll, amount),
                    ..old(self).log_panel
                },
                ..*old(self)
            }),
    {
        self.log_panel.live_tail = false;
        match self.log_panel.logs_scroll {
            LogScroll::Fixed(s) => {
                self.log_panel.logs_scroll = LogScroll::Fixed(
                    if s >= amount {
                        s - amount
                    } else {
                        0
                    },
                );
            },
            LogScroll::TrackLatest => {},
        }
    }

    /// Scrolls the log down by `amount` records, never past the last record,
    /// and stops following the log.
    pub fn scroll_logs_down(&mut self, amount: usize)
        ensures
            *final(self) == (App {
                log_panel: LogPanel {
                    live_tail: false,
                    logs_scroll: anchor_down(
                        old(self).log_panel.logs_scroll,
                        amount,
                        old(self).log_panel.logs@.len(),
                    ),
                    ..old(self).log_panel
                },
                ..*old(self)
            }),
    {
        self.log_panel.live_tail = false;
        let len = self.log_panel.logs.len();
        if len > 0 {
            match self.log_panel.logs_scroll {
                LogScroll::Fixed(s) => {
                    self.log_panel.logs_scroll = LogScroll::Fixed(
                        if s < len && amount < len - s {
                            s + amount
                        } else {
                            len - 1
                        },
                    );
                },
                LogScroll::TrackLatest => {},
            }
        }
    }

    /// Shows or hides the log panel. Showing it starts following the log;
    /// hiding it stops that and forgets which unit's log is loaded.
    pub fn toggle_logs(&mut self)
        ensures
            *final(self) == (App { log_panel: final(self).log_panel, ..*old(self) }),
            final(self).log_panel == if old(self).log_panel.show_logs {
                LogPanel {
                    show_logs: false,
                    live_tail: false,
                    last_selected_service: None,
                    ..old(self).log_panel
                }
            } else {
                LogPanel { show_logs: true, live_tail: true, ..old(self).log_panel }
            },
    {
        self.log_panel.show_logs = !self.log_panel.show_logs;
        if self.log_panel.show_logs {
            self.log_panel.live_tail = true;
        } else {
            self.log_panel.live_tail = false;
            self.log_panel.last_selected_service = None;
        }
    }

    /// Starts or stops following the log. Starting anchors the panel at the
    /// newest content, if there are records.
    pub fn toggle_live_tail(&mut self)
        ensures
            *final(self) == (App {
                log_panel: LogPanel {
                    live_tail: !old(self).log_panel.live_tail,
                    logs_scroll: if !old(self).log_panel.live_tail && old(self).log_panel.logs@.len()
                        > 0 {
                        LogScroll::TrackLatest
                    } else {
                        old(self).log_panel.logs_scroll
                    },
                    ..old(self).log_panel
                },
                ..*old(self)
            }),
    {
        self.log_panel.live_tail = !self.log_panel.live_tail;
        if self.log_panel.live_tail {
            self.logs_go_to_bottom();
        }
    }

    /// What to read to continue the loaded log, if it can be continued: a
    /// unit's log is loaded and its last record carries a cursor.
    pub fn tail_query(&self) -> (r: Option<TailQuery>)
        ensures
            r is Some == self.log_panel.tail_cursor() is Some,
            r matches Some(q) ==> {
                &&& Some(q.unit@) == self.log_panel.last_selected_service.deep_view()
                &&& Some(q.cursor@) == self.log_panel.tail_cursor()
                &&& q.user_mode == self.units.user_mode
                &&& q.priority == self.log_panel.log_priority_filter
                &&& q.time_range == self.log_panel.log_time_range
            },
    {
        let unit = match &self.log_panel.last_selected_service {
            Some(u) => u.clone(),
            None => {
                return None;
            },
        };
        let len = self.log_panel.logs.len();
        if len == 0 {
            return None;
        }
        let cursor = match &self.log_panel.logs[len - 1].cursor {
            Some(c) => c.clone(),
            None => {
                return None;
            },
        };
        Some(
            TailQuery {
                unit,
                cursor,
                user_mode: self.units.user_mode,
                priority: self.log_panel.log_priority_filter,
                time_range: self.log_panel.log_time_range,
            },
        )
    }

    /// Takes in what reading after the last record brought. New records are
    /// appended and the panel is anchored at the newest content. An empty
    /// answer or a failure changes nothing, and neither does an answer for a
    /// log that cannot be continued.
    pub fn refresh_logs(&mut self, fetched: Result<Vec<LogEntry>, String>)
        ensures
            match fetched {
                Ok(records) if records@.len() > 0 && old(self).log_panel.tail_cursor() is Some => {
                    &&& *final(self) == (App { log_panel: final(self).log_panel, ..*old(self) })
                    &&& final(self).log_panel == (LogPanel {
                        logs: final(self).log_panel.logs,
                        logs_scroll: LogScroll::TrackLatest,
                        cached_entry_heights_dirty: true,
                        ..old(self).log_panel
                    })
                    &&& final(self).log_panel.logs@ == old(self).log_panel.logs@ + records@
                },
                _ => *final(self) == *old(self),
            },
    {
        match fetched {
            Ok(records) => {
                let len = self.log_panel.logs.len();
                if records.len() > 0 && self.log_panel.last_selected_service.is_some() && len > 0
                    && self.log_panel.logs[len - 1].cursor.is_some() {
                    let mut records = records;
                    self.log_panel.logs.append(&mut records);
                    self.log_panel.cached_entry_heights_dirty = true;
                    self.log_panel.logs_scroll = LogScroll::TrackLatest;
                }
            },
            Err(_) => {},
        }
    }

    /// Searches the records for the query: computes the matches anew, makes
    /// the first the current match and moves the panel to it. Without a
    /// match, and for the empty query, no match is current and the panel
    /// stays.
    pub fn update_log_search(&mut self)
        ensures
            *final(self) == (App { log_panel: final(self).log_panel, ..*old(self) }),
            final(self).log_panel == (LogPanel {
                log_search_matches: final(self).log_panel.log_search_matches,
                log_search_match_index: final(self).log_panel.log_search_match_index,
                logs_scroll: final(self).log_panel.logs_scroll,
                cached_entry_heights_dirty: true,
                ..old(self).log_panel
            }),
            final(self).log_panel.log_search_matches@ == log_matches(
                old(self).log_panel.logs.deep_view(),
                old(self).log_panel.log_search_query@,
            ),
            final(self).log_panel.log_search_matches@.len() == 0 ==> {
                &&& final(self).log_panel.log_search_match_index is None
                &&& final(self).log_panel.logs_scroll == old(self).log_panel.logs_scroll
            },
            final(self).log_panel.log_search_matches@.len() > 0 ==> {
                &&& final(self).log_panel.log_search_match_index == Some(0usize)
                &&& final(self).log_panel.logs_scroll == LogScroll::Fixed(
                    final(self).log_panel.log_search_matches@[0],
                )
            },
    {
        self.log_panel.cached_entry_heights_dirty = true;
        self.log_panel.log_search_match_index = None;
        let mut found: Vec<usize> = Vec::new();
        if !self.log_panel.log_search_query.as_str().is_empty() {
            let query = to_lowercase(self.log_panel.log_search_query.as_str());
            let ghost records = self.log_panel.logs.deep_view();
            let ghost raw = self.log_panel.log_search_query@;
            let mut i: usize = 0;
            while i < self.log_panel.logs.len()
                invariant
                    i <= self.log_panel.logs.len(),
                    records == self.log_panel.logs.deep_view(),
                    query@ == lowercase_of(raw),
                    found@ == log_matches_prefix(records, raw, i as nat),
                decreases self.log_panel.logs.len() - i,
            {
                assert(records[i as int] == self.log_panel.logs[i as int]@);
                let message = to_lowercase(self.log_panel.logs[i].message.as_str());
                if str_contains(message.as_str(), query.as_str()) {
                    found.push(i);
                }
                i = i + 1;
            }
        }
        if found.len() > 0 {
            self.log_panel.log_search_match_index = Some(0);
            self.log_panel.logs_scroll = LogScroll::Fixed(found[0]);
        }
        self.log_panel.log_search_matches = found;
    }

    /// Drops the log search: query, matches and current match.
    pub fn clear_log_search(&mut self)
        ensures
            *final(self) == (App { log_panel: final(self).log_panel, ..*old(self) }),
            final(self).log_panel == (LogPanel {
                log_search_query: final(self).log_panel.log_search_query,
                log_search_matches: final(self).log_panel.log_search_matches,
                log_search_match_index: None,
                cached_entry_heights_dirty: true,
                ..old(self).log_panel
            }),
            final(self).log_panel.search_is_clear(),
    {
        self.log_panel.log_search_query = String::new();
        self.log_panel.log_search_matches = Vec::new();
        self.log_panel.log_search_match_index = None;
        self.log_panel.cached_entry_heights_dirty = true;
    }

    /// Makes the match after the current one current, wrapping from the last
    /// to the first, and moves the panel to its record if that is outside
    /// the `visible_lines` records from the anchor. Without matches nothing
    /// changes.
    pub fn next_log_match(&mut self, visible_lines: usize)
        ensures
            old(self).log_panel.log_search_matches@.len() == 0 ==> *final(self) == *old(self),
            old(self).log_panel.log_search_matches@.len() > 0 ==> {
                let matches = old(self).log_panel.log_search_matches@;
                let position = next_match(old(self).log_panel.log_search_match_index, matches.len());
                &&& position < matches.len()
                &&& *final(self) == (App {
                    log_panel: LogPanel {
                        log_search_match_index: Some(position),
                        logs_scroll: anchor_showing(
                            old(self).log_panel.logs_scroll,
                            matches[position as int],
                            visible_lines,
                        ),
                        ..old(self).log_panel
                    },
                    ..*old(self)
                })
            },
    {
        let len = self.log_panel.log_search_matches.len();
        if len == 0 {
            return ;
        }
        let position: usize = match self.log_panel.log_search_match_index {
            Some(i) => {
                proof {
                    lemma_next_in_cycle(i as int, len as int);
                }
                let r: usize = i % len;
                if r + 1 == len {
                    0
                } else {
                    r + 1
                }
            },
            None => 0,
        };
        self.show_match(position, visible_lines);
    }

    /// Makes the match before the current one current, wrapping from the
    /// first to the last, and moves the panel to its record if that is
    /// outside the `visible_lines` records from the anchor. Without matches
    /// nothing changes.
    pub fn prev_log_match(&mut self, visible_lines: usize)
        ensures
            old(self).log_panel.log_search_matches@.len() == 0 ==> *final(self) == *old(self),
            old(self).log_panel.log_search_matches@.len() > 0 ==> {
                let matches = old(self).log_panel.log_search_matches@;
                let position = previous_match(
                    old(self).log_panel.log_search_match_index,
                    matches.len(),
                );
                &&& position < matches.len()
                &&& *final(self) == (App {
                    log_panel: LogPanel {
                        log_search_match_index: Some(position),
                        logs_scroll: anchor_showing(
                            old(self).log_panel.logs_scroll,
                            matches[position as int],
                            visible_lines,
                        ),
                        ..old(self).log_panel
                    },
                    ..*old(self)
                })
            },
    {
        let len = self.log_panel.log_search_matches.len();
        if len == 0 {
            return ;
        }
        let position: usize = match self.log_panel.log_search_match_index {
            Some(i) => {
                proof {
                    lemma_previous_in_cycle(i as int, len as int);
                }
                let r: usize = i % len;
                if r == 0 {
                    len - 1
                } else {
                    r - 1
                }
            },
            None => len - 1,
        };
        self.show_match(position, visible_lines);
    }

    /// Makes match `position` current and brings its record into view.
    fn show_match(&mut self, position: usize, visible_lines: usize)
        requires
            position < old(self).log_panel.log_search_matches@.len(),
        ensures
            *final(self) == (App {
                log_panel: LogPanel {
                    log_search_match_index: Some(position),
                    logs_scroll: anchor_showing(
                        old(self).log_panel.logs_scroll,
                        old(self).log_panel.log_search_matches@[position as int],
                        visible_lines,
                    ),
                    ..old(self).log_panel
                },
                ..*old(self)
            }),
    {
        self.log_panel.log_search_match_index = Some(position);
        let line = self.log_panel.log_search_matches[position];
        match self.log_panel.logs_scroll {
            LogScroll::Fixed(s) => {
                if line < s || line - s >= visible_lines {
                    self.log_panel.logs_scroll = LogScroll::Fixed(line);
                }
            },
            LogScroll::TrackLatest => {
                self.log_panel.logs_scroll = LogScroll::Fixed(line);
            },
        }
    }

    /// Anchors the log panel at the first record.
    pub fn logs_go_to_top(&mut self)
        ensures
            *final(self) == (App {
                log_panel: LogPanel { logs_scroll: LogScroll::Fixed(0), ..old(self).log_panel },
                ..*old(self)
            }),
    {
        self.log_panel.logs_scroll = LogScroll::Fixed(0);
    }

    /// Anchors the log panel at the newest content, if there are records.
    pub fn logs_go_to_bottom(&mut self)
        ensures
            *final(self) == (App {
                log_panel: LogPanel {
                    logs_scroll: if old(self).log_panel.logs@.len() > 0 {
                        LogScroll::TrackLatest
                    } else {
                        old(self).log_panel.logs_scroll
                    },
                    ..old(self).log_panel
                },
                ..*old(self)
            }),
    {
        if self.log_panel.logs.len() > 0 {
            self.log_panel.logs_scroll = LogScroll::TrackLatest;
        }
    }

    /// Resolves the anchor against the panel's geometry: the height of every
    /// record and the number of lines of the panel. An anchor at the newest
    /// content becomes the bottom index, and a fixed anchor is held at or
    /// above the bottom index. Returns the index the panel starts at.
    pub fn resolve_log_scroll(&mut self, entry_heights: &[usize], visible_lines: usize) -> (r:
        usize)
        ensures
            final(self).log_panel.logs_scroll == LogScroll::Fixed(r),
            exists|bottom: usize|
                {
                    &&& is_bottom_index(entry_heights@, visible_lines as int, bottom as int)
                    &&& *final(self) == (App {
                        log_panel: LogPanel {
                            logs_scroll: anchor_resolved(
                                old(self).log_panel.logs_scroll,
                                old(self).log_panel.logs@.len(),
                                bottom,
                            ),
                            ..old(self).log_panel
                        },
                        ..*old(self)
                    })
                },
    {
        let bottom = bottom_scroll_index(entry_heights, visible_lines);
        let start: usize = match self.log_panel.logs_scroll {
            LogScroll::TrackLatest => bottom,
            LogScroll::Fixed(s) => if self.log_panel.logs.len() == 0 {
                0
            } else if s <= bottom {
                s
            } else {
                bottom
            },
        };
        self.log_panel.logs_scroll = LogScroll::Fixed(start);
        start
    }
}

} // verus!
