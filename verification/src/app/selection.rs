//! The filter and selection engine: which units pass the active filters,
//! and where the cursor of the unit list stands.

use vstd::prelude::*;
use vstd::string::*;
use crate::app::{App, Details, ListState, UnitList};
use crate::service::{PropertiesView, SystemdUnit, UnitView};
use crate::text::{indices_where, is_infix, lowercase_of, str_contains, to_lowercase};

verus! {

/// The predicates that are applied to the unit list together.
pub struct ActiveFilter {
    /// Text looked for in names and descriptions, without regard to case;
    /// empty for no text filter.
    pub query: Seq<char>,
    /// The sub-state a unit must be in, if any.
    pub status: Option<Seq<char>>,
    /// The enablement a unit must have, if any.
    pub file_state: Option<Seq<char>>,
}

/// The unit's name or description holds the query, without regard to case.
pub open spec fn text_matches(query: Seq<char>, unit: UnitView) -> bool {
    query.len() == 0 || is_infix(lowercase_of(query), lowercase_of(unit.unit)) || is_infix(
        lowercase_of(query),
        lowercase_of(unit.description),
    )
}

/// The unit is in the sub-state asked for.
pub open spec fn status_matches(status: Option<Seq<char>>, unit: UnitView) -> bool {
    status is None || status == Some(unit.sub)
}

/// The unit has the enablement asked for.
pub open spec fn file_state_matches(file_state: Option<Seq<char>>, unit: UnitView) -> bool {
    file_state is None || unit.file_state == file_state
}

/// The unit passes every active predicate.
pub open spec fn unit_matches(filter: ActiveFilter, unit: UnitView) -> bool {
    text_matches(filter.query, unit) && status_matches(filter.status, unit) && file_state_matches(
        filter.file_state,
        unit,
    )
}

/// The indices of the first `n` units that pass the filter, in list order.
pub open spec fn matching_prefix(units: Seq<UnitView>, filter: ActiveFilter, n: nat) -> Seq<
    usize,
> {
    indices_where(n, |i: int| unit_matches(filter, units[i]))
}

/// The indices of the units that pass the filter, in list order.
pub open spec fn matching_units(units: Seq<UnitView>, filter: ActiveFilter) -> Seq<usize> {
    matching_prefix(units, filter, units.len())
}

/// The cursor after the filtered list changed to `len` entries: a selection
/// that still points into the list stays, one that fell off the end moves to
/// the first entry, and an empty list has no selection.
pub open spec fn selection_after_filter(cursor: ListState, len: nat) -> ListState {
    match cursor.selected {
        Some(k) => if k < len {
            cursor
        } else if len == 0 {
            cursor.with_selection(None)
        } else {
            cursor.with_selection(Some(0))
        },
        None => if len > 0 {
            cursor.with_selection(Some(0))
        } else {
            cursor
        },
    }
}

/// The position one step down from `selected` in a list of `len > 0`
/// entries, stopping at the last entry.
pub open spec fn next_position(selected: Option<usize>, len: nat) -> usize {
    match selected {
        Some(i) => if i + 1 < len {
            (i + 1) as usize
        } else {
            (len - 1) as usize
        },
        None => 0,
    }
}

/// The position one step up from `selected` in a list of `len > 0` entries,
/// stopping at the first entry.
pub open spec fn previous_position(selected: Option<usize>, len: nat) -> usize {
    match selected {
        Some(i) => if i == 0 || len <= 1 {
            0
        } else if i < len {
            (i - 1) as usize
        } else {
            (len - 2) as usize
        },
        None => 0,
    }
}

/// The position `page` steps up from `selected`, stopping at the first entry.
pub open spec fn page_up_position(selected: Option<usize>, page: usize) -> usize {
    let current = match selected {
        Some(i) => i,
        None => 0,
    };
    if current >= page {
        (current - page) as usize
    } else {
        0
    }
}

/// The position `page` steps down from `selected` in a list of `len > 0`
/// entries, stopping at the last entry.
pub open spec fn page_down_position(selected: Option<usize>, page: usize, len: nat) -> usize {
    let current = match selected {
        Some(i) => i,
        None => 0,
    };
    if current + page < len {
        (current + page) as usize
    } else {
        (len - 1) as usize
    }
}

impl UnitList {
    /// The predicates that are active.
    pub open spec fn filter(&self) -> ActiveFilter {
        ActiveFilter {
            query: self.search_query@,
            status: self.status_filter.deep_view(),
            file_state: self.file_state_filter.deep_view(),
        }
    }

    /// The filtered list lists valid units in strictly increasing order, and
    /// the cursor is empty or points into it.
    pub open spec fn selection_wf(&self) -> bool {
        &&& forall|k: int|
            0 <= k < self.filtered_indices@.len() ==> (#[trigger] self.filtered_indices@[k])
                < self.services@.len()
        &&& forall|j: int, k: int|
            0 <= j < k < self.filtered_indices@.len() ==> (#[trigger] self.filtered_indices@[j])
                < (#[trigger] self.filtered_indices@[k])
        &&& self.list_state.selected matches Some(k) ==> k < self.filtered_indices@.len()
    }

    /// The index into `services` of the unit under the cursor.
    pub open spec fn selected_unit_index(&self) -> Option<int> {
        match self.list_state.selected {
            Some(k) => if k < self.filtered_indices@.len() && self.filtered_indices@[k as int]
                < self.services@.len() {
                Some(self.filtered_indices@[k as int] as int)
            } else {
                None
            },
            None => None,
        }
    }

    /// The name of the unit under the cursor.
    pub open spec fn selected_unit_name(&self) -> Option<Seq<char>> {
        match self.selected_unit_index() {
            Some(i) => Some(self.services@[i].unit@),
            None => None,
        }
    }

    /// The list with its cursor at `position` and all else as it is; the
    /// list itself where it has no entries.
    pub open spec fn moved_to(self, position: usize) -> UnitList {
        if self.filtered_indices@.len() == 0 {
            self
        } else {
            UnitList { list_state: self.list_state.with_selection(Some(position)), ..self }
        }
    }

    /// The filtered list is what `filter` selects from `units`, and the
    /// cursor is `cursor` brought back into that list.
    pub open spec fn shows_filtered(
        &self,
        units: Seq<UnitView>,
        filter: ActiveFilter,
        cursor: ListState,
    ) -> bool {
        &&& self.filtered_indices@ == matching_units(units, filter)
        &&& self.list_state == selection_after_filter(cursor, self.filtered_indices@.len())
    }
}

/// Whether `unit` passes the three predicates. `query_lower` is the lowercase
/// form of `search_query`.
fn matches_filter(
    unit: &SystemdUnit,
    search_query: &String,
    query_lower: &String,
    status_filter: &Option<String>,
    file_state_filter: &Option<String>,
) -> (r: bool)
    requires
        query_lower@ == lowercase_of(search_query@),
    ensures
        r == unit_matches(
            ActiveFilter {
                query: search_query@,
                status: status_filter.deep_view(),
                file_state: file_state_filter.deep_view(),
            },
            unit@,
        ),
{
    let matches_search = search_query.as_str().is_empty() || str_contains(
        to_lowercase(unit.unit.as_str()).as_str(),
        query_lower.as_str(),
    ) || str_contains(to_lowercase(unit.description.as_str()).as_str(), query_lower.as_str());
    let matches_status = match status_filter {
        None => true,
        Some(s) => *s == unit.sub,
    };
    let matches_file_state = match file_state_filter {
        None => true,
        Some(f) => match &unit.file_state {
            Some(u) => *u == *f,
            None => false,
        },
    };
    matches_search && matches_status && matches_file_state
}

impl App {
    /// This state is `before` after a listing of the units came back at time
    /// `now`, see `load_services`.
    pub open spec fn is_loaded_from(
        &self,
        before: App,
        fetched: Result<Vec<SystemdUnit>, String>,
        now: i64,
    ) -> bool {
        &&& *self == (App { units: self.units, details: self.details, ..before })
        &&& self.details == (Details {
            properties_cache: self.details.properties_cache,
            ..before.details
        })
        &&& self.details.properties_cache@ == Map::<Seq<char>, PropertiesView>::empty()
        &&& match fetched {
            Ok(units) => {
                &&& self.units == (UnitList {
                    services: units,
                    error: None,
                    last_refreshed: Some(now),
                    filtered_indices: self.units.filtered_indices,
                    list_state: self.units.list_state,
                    ..before.units
                })
                &&& self.units.shows_filtered(
                    units.deep_view(),
                    before.units.filter(),
                    before.units.list_state,
                )
                &&& self.units.selection_wf()
            },
            Err(e) => {
                &&& self.units == (UnitList { error: self.units.error, ..before.units })
                &&& self.units.error.deep_view() == Some(
                    if before.units.user_mode {
                        e@
                    } else {
                        e@ + " (press 'u' to switch to user mode)"@
                    },
                )
            },
        }
    }

    /// Computes the filtered list anew from the units and the active
    /// predicates, and brings the cursor back into it. Nothing else changes.
    pub fn update_filter(&mut self)
        ensures
            *final(self) == (App { units: final(self).units, ..*old(self) }),
            final(self).units == (UnitList {
                filtered_indices: final(self).units.filtered_indices,
                list_state: final(self).units.list_state,
                ..old(self).units
            }),
            final(self).units.shows_filtered(
                old(self).units.services.deep_view(),
                old(self).units.filter(),
                old(self).units.list_state,
            ),
            final(self).units.selection_wf(),
    {
        let query = to_lowercase(self.units.search_query.as_str());
        let mut found: Vec<usize> = Vec::new();
        let mut i: usize = 0;
        let ghost units = self.units.services.deep_view();
        let ghost filter = self.units.filter();
        while i < self.units.services.len()
            invariant
                i <= self.units.services.len(),
                units == self.units.services.deep_view(),
                filter == self.units.filter(),
                query@ == lowercase_of(self.units.search_query@),
                found@ == matching_prefix(units, filter, i as nat),
            decreases self.units.services.len() - i,
        {
            assert(units[i as int] == self.units.services[i as int]@);
            let passes = matches_filter(
                &self.units.services[i],
                &self.units.search_query,
                &query,
                &self.units.status_filter,
                &self.units.file_state_filter,
            );
            if passes {
                found.push(i);
            }
            i = i + 1;
        }
        proof {
            crate::text::lemma_indices_where(
                units.len(),
                |i: int| unit_matches(filter, units[i]),
            );
        }
        let len = found.len();
        let cursor = match self.units.list_state.selected() {
            Some(selected) => if selected < len {
                self.units.list_state
            } else if len == 0 {
                ListState { offset: 0, selected: None }
            } else {
                self.units.list_state.with_selected(Some(0))
            },
            None => if len > 0 {
                self.units.list_state.with_selected(Some(0))
            } else {
                self.units.list_state
            },
        };
        self.units.filtered_indices = found;
        self.units.list_state = cursor;
    }

    /// Drops the text filter and filters anew.
    pub fn clear_search(&mut self)
        ensures
            *final(self) == (App { units: final(self).units, ..*old(self) }),
            final(self).units == (UnitList {
                search_query: final(self).units.search_query,
                filtered_indices: final(self).units.filtered_indices,
                list_state: final(self).units.list_state,
                ..old(self).units
            }),
            final(self).units.search_query@ == Seq::<char>::empty(),
            final(self).units.shows_filtered(
                old(self).units.services.deep_view(),
                final(self).units.filter(),
                old(self).units.list_state,
            ),
            final(self).units.selection_wf(),
    {
        self.units.search_query = String::new();
        self.update_filter();
    }

    /// Takes in a listing of the units that came back at time `now`. The
    /// remembered fact sheets are dropped either way. A listing that
    /// succeeded replaces the units, clears the error, is stamped with `now`
    /// and filtered. One that failed leaves the units and stores the error,
    /// in system scope with a hint at the per-user scope.
    pub fn load_services(&mut self, fetched: Result<Vec<SystemdUnit>, String>, now: i64)
        ensures
            final(self).is_loaded_from(*old(self), fetched, now),
    {
        self.details.properties_cache.clear();
        match fetched {
            Ok(services) => {
                self.units.services = services;
                self.units.error = None;
                self.units.last_refreshed = Some(now);
                self.update_filter();
            },
            Err(e) => {
                if self.units.user_mode {
                    self.units.error = Some(e);
                } else {
                    self.units.error = Some(e.concat(" (press 'u' to switch to user mode)"));
                }
            },
        }
    }

    /// Moves the cursor one unit down, stopping at the last one. Without
    /// units in the list nothing changes.
    pub fn next(&mut self)
        ensures
            *final(self) == (App {
                units: old(self).units.moved_to(
                    next_position(
                        old(self).units.list_state.selected,
                        old(self).units.filtered_indices@.len(),
                    ),
                ),
                ..*old(self)
            }),
    {
        let len = self.units.filtered_indices.len();
        if len == 0 {
            return ;
        }
        let position: usize = match self.units.list_state.selected() {
            Some(i) => if i < len - 1 {
                i + 1
            } else {
                len - 1
            },
            None => 0,
        };
        self.units.list_state.select(Some(position));
    }

    /// Moves the cursor one unit up, stopping at the first one. Without
    /// units in the list nothing changes.
    pub fn previous(&mut self)
        ensures
            *final(self) == (App {
                units: old(self).units.moved_to(
                    previous_position(
                        old(self).units.list_state.selected,
                        old(self).units.filtered_indices@.len(),
                    ),
                ),
                ..*old(self)
            }),
    {
        let len = self.units.filtered_indices.len();
        if len == 0 {
            return ;
        }
        let position: usize = match self.units.list_state.selected() {
            Some(i) => {
                let clamped: usize = if i < len {
                    i
                } else {
                    len - 1
                };
                if clamped == 0 {
                    0
                } else {
                    clamped - 1
                }
            },
            None => 0,
        };
        self.units.list_state.select(Some(position));
    }

    /// Moves the cursor to the first unit. Without units in the list nothing
    /// changes.
    pub fn go_to_top(&mut self)
        ensures
            *final(self) == (App { units: old(self).units.moved_to(0), ..*old(self) }),
    {
        if self.units.filtered_indices.len() > 0 {
            self.units.list_state.select(Some(0));
        }
    }

    /// Moves the cursor to the last unit. Without units in the list nothing
    /// changes.
    pub fn go_to_bottom(&mut self)
        ensures
            *final(self) == (App {
                units: old(self).units.moved_to(
                    (old(self).units.filtered_indices@.len() - 1) as usize,
                ),
                ..*old(self)
            }),
    {
        if self.units.filtered_indices.len() > 0 {
            self.units.list_state.select(Some(self.units.filtered_indices.len() - 1));
        }
    }

    /// Moves the cursor `page_size` units up, stopping at the first one.
    /// Without units in the list nothing changes.
    pub fn page_up(&mut self, page_size: usize)
        ensures
            *final(self) == (App {
                units: old(self).units.moved_to(
                    page_up_position(old(self).units.list_state.selected, page_size),
                ),
                ..*old(self)
            }),
    {
        if self.units.filtered_indices.len() == 0 {
            return ;
        }
        let current: usize = match self.units.list_state.selected() {
            Some(i) => i,
            None => 0,
        };
        let position: usize = if current >= page_size {
            current - page_size
        } else {
            0
        };
        self.units.list_state.select(Some(position));
    }

    /// Moves the cursor `page_size` units down, stopping at the last one.
    /// Without units in the list nothing changes.
    pub fn page_down(&mut self, page_size: usize)
        ensures
            *final(self) == (App {
                units: old(self).units.moved_to(
                    page_down_position(
                        old(self).units.list_state.selected,
                        page_size,
                        old(self).units.filtered_indices@.len(),
                    ),
                ),
                ..*old(self)
            }),
    {
        let len = self.units.filtered_indices.len();
        if len == 0 {
            return ;
        }
        let current: usize = match self.units.list_state.selected() {
            Some(i) => i,
            None => 0,
        };
        let position: usize = if current < len && page_size < len - current {
            current + page_size
        } else {
            len - 1
        };
        self.units.list_state.select(Some(position));
    }

    /// The unit under the cursor, if the cursor points at one.
    pub fn selected_unit(&self) -> (r: Option<&SystemdUnit>)
        ensures
            r is Some == self.units.selected_unit_index() is Some,
            r matches Some(u) ==> *u == self.units.services@[self.units.selected_unit_index()->0],
    {
        match self.units.list_state.selected() {
            Some(k) => {
                if k < self.units.filtered_indices.len() {
                    let i = self.units.filtered_indices[k];
                    if i < self.units.services.len() {
                        Some(&self.units.services[i])
                    } else {
                        None
                    }
                } else {
                    None
                }
            },
            None => None,
        }
    }
}

} // verus!
