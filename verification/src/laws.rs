//! What holds of the engines in general, stated over their models and
//! proved from the definitions that the contracts of the methods use.

use vstd::prelude::*;
use crate::app::actions::ActionPhase;
use crate::app::logs::{
    anchor_resolved, lemma_next_in_cycle, lemma_previous_in_cycle, next_match, previous_match,
};
use crate::app::pickers::{opening_position, position_from};
use crate::app::selection::{
    matching_units, next_position, page_down_position, previous_position, selection_after_filter,
    unit_matches, ActiveFilter,
};
use crate::app::{ListState, PendingAction, UnitList};
use crate::app::App;
use crate::clock::{
    elapsed, interval_start, remaining, LiveTailClock, ACTION_POLL_NS, IDLE_POLL_NS,
    LIVE_TAIL_INTERVAL_NS,
};
use crate::input::{Command, KeyPress, Mode, Viewport};
use crate::service::{LogRecord, UnitView};
use crate::text::lemma_indices_where;
use crate::viewport::{boot_changed, marker_before, LogScroll, Marker};

verus! {

/// The filtered list is the sub-list of the unit indices that pass every
/// active predicate, in the order of the unit list: each entry is the index
/// of a unit that passes, the entries increase strictly, and the index of
/// every unit that passes is among them.
pub proof fn law_filtered_list_is_matching_sublist(units: Seq<UnitView>, filter: ActiveFilter)
    requires
        units.len() <= usize::MAX,
    ensures
        forall|k: int|
            0 <= k < matching_units(units, filter).len() ==> {
                &&& 0 <= (#[trigger] matching_units(units, filter)[k]) < units.len()
                &&& unit_matches(filter, units[matching_units(units, filter)[k] as int])
            },
        forall|j: int, k: int|
            0 <= j < k < matching_units(units, filter).len() ==> (#[trigger] matching_units(
                units,
                filter,
            )[j]) < (#[trigger] matching_units(units, filter)[k]),
        forall|i: int|
            0 <= i < units.len() && #[trigger] unit_matches(filter, units[i]) ==> matching_units(
                units,
                filter,
            ).contains(i as usize),
{
    let pred = |i: int| unit_matches(filter, units[i]);
    lemma_indices_where(units.len(), pred);
    let f = matching_units(units, filter);
    assert forall|i: int| 0 <= i < units.len() && #[trigger] unit_matches(
        filter,
        units[i],
    ) implies f.contains(i as usize) by {
        assert(pred(i));
        let k = choose|k: int| 0 <= k < f.len() && #[trigger] f[k] == i;
        assert(f[k] == i as usize);
    }
}

/// After a change of filter the cursor points at a unit that passes the new
/// filter, or the filtered list is empty and nothing is selected. So the unit
/// that was selected before is selected afterwards only if it still passes.
pub proof fn law_selected_unit_passes_filter(
    units: Seq<UnitView>,
    filter: ActiveFilter,
    cursor: ListState,
)
    requires
        units.len() <= usize::MAX,
    ensures
        ({
            let filtered = matching_units(units, filter);
            let after = selection_after_filter(cursor, filtered.len());
            &&& after.selected is None <==> filtered.len() == 0
            &&& after.selected matches Some(j) ==> j < filtered.len() && unit_matches(
                filter,
                units[filtered[j as int] as int],
            )
        }),
{
    law_filtered_list_is_matching_sublist(units, filter);
}

/// With filtered position `k` selected, a change of filter that leaves
/// entries moves the cursor to the first entry unless the position still
/// exists in the new list. Where position `k` of the new list is still the
/// unit that was selected, or `k` is the first position, this says: the same
/// unit stays selected, and then it passes the new filter, or else the cursor
/// is at the first entry.
pub proof fn law_selection_resets_to_first(
    units: Seq<UnitView>,
    before: ActiveFilter,
    after: ActiveFilter,
    cursor: ListState,
    k: usize,
)
    requires
        units.len() <= usize::MAX,
        cursor.selected == Some(k),
        k < matching_units(units, before).len(),
        matching_units(units, after).len() > 0,
        0 < k < matching_units(units, after).len() ==> matching_units(units, after)[k as int]
            == matching_units(units, before)[k as int],
    ensures
        ({
            let was = matching_units(units, before)[k as int];
            let list = matching_units(units, after);
            let now = selection_after_filter(cursor, list.len());
            &&& now.selected is Some
            &&& list[now.selected->0 as int] == was ==> unit_matches(after, units[was as int])
            &&& list[now.selected->0 as int] != was ==> now.selected == Some(0usize)
        }),
{
    law_filtered_list_is_matching_sublist(units, after);
}

/// Moving the cursor within a list that is well formed leaves it well
/// formed: every position that the navigation steps compute lies in the
/// list.
pub proof fn law_navigation_stays_in_list(list: UnitList, page: usize)
    requires
        list.selection_wf(),
        list.filtered_indices@.len() > 0,
    ensures
        list.moved_to(next_position(list.list_state.selected, list.filtered_indices@.len()))
            .selection_wf(),
        list.moved_to(previous_position(list.list_state.selected, list.filtered_indices@.len()))
            .selection_wf(),
        list.moved_to(
            page_down_position(list.list_state.selected, page, list.filtered_indices@.len()),
        ).selection_wf(),
        list.moved_to(0).selection_wf(),
        list.moved_to((list.filtered_indices@.len() - 1) as usize).selection_wf(),
{
}

/// One action passes from confirmation to execution to its settled result,
/// in that order and once. Starting is possible from confirmation only; a
/// poll without a result leaves the action executing; the first result that
/// is delivered settles it and is the result shown; and once it has settled,
/// neither a further result nor a further confirmation changes anything.
pub proof fn law_action_settles_once(
    pending: PendingAction,
    result: Result<String, String>,
    later: Option<Result<String, String>>,
)
    requires
        pending.can_start(),
    ensures
        pending.phase() == ActionPhase::Confirming,
        pending.started().phase() == ActionPhase::Executing,
        pending.started().started() == pending.started(),
        pending.started().polled(None) == pending.started(),
        pending.started().polled(Some(result)).phase() == ActionPhase::Settled,
        pending.started().polled(Some(result)).action_result == Some(result),
        pending.started().polled(Some(result)).polled(later) == pending.started().polled(
            Some(result),
        ),
        pending.started().polled(Some(result)).started() == pending.started().polled(Some(result)),
{
}

/// An action that is not awaiting confirmation cannot be started, and a
/// result that is not awaited is not taken.
pub proof fn law_action_needs_confirmation(
    pending: PendingAction,
    outcome: Option<Result<String, String>>,
)
    ensures
        pending.phase() != ActionPhase::Confirming ==> pending.started() == pending,
        !pending.awaiting_action ==> pending.polled(outcome) == pending,
{
}

/// Dismissing leaves nothing pending, whatever was pending before: the
/// cleared state is idle and every one of its fields is empty.
pub proof fn law_dismissed_is_idle()
    ensures
        PendingAction::cleared().is_clear(),
        PendingAction::cleared().phase() == ActionPhase::Idle,
        !PendingAction::cleared().can_start(),
{
}

/// A picker opens on the option that is in effect: where the value in effect
/// is among the options, the opening position is the first position that
/// holds it, and without a value it is the first option.
pub proof fn law_picker_opens_on_current(options: Seq<Seq<char>>, current: Option<Seq<char>>)
    requires
        options.len() > 0,
        options.len() <= usize::MAX,
    ensures
        opening_position(options, current) < options.len(),
        current is None ==> opening_position(options, current) == 0,
        current is Some && options.contains(current->0) ==> options[opening_position(
            options,
            current,
        ) as int] == current->0,
{
    match current {
        Some(value) => {
            lemma_position_from(options, value, 0);
            if options.contains(value) {
                let i = choose|i: int| 0 <= i < options.len() && options[i] == value;
                assert(options[i] == value);
            }
        },
        None => {},
    }
}

proof fn lemma_position_from(options: Seq<Seq<char>>, value: Seq<char>, from: int)
    requires
        0 <= from <= options.len(),
    ensures
        match position_from(options, value, from) {
            Some(i) => from <= i < options.len() && options[i] == value,
            None => forall|i: int| from <= i < options.len() ==> options[i] != value,
        },
    decreases options.len() - from,
{
    if from < options.len() && options[from] != value {
        lemma_position_from(options, value, from + 1);
    }
}

/// A change of boot id takes precedence over a change of invocation id:
/// where the boot id changes between two records, the marker between them is
/// the reboot marker, whatever the invocation ids are.
pub proof fn law_boot_marker_takes_precedence(logs: Seq<LogRecord>, i: int)
    requires
        0 < i < logs.len(),
        boot_changed(logs[i - 1], logs[i]),
    ensures
        marker_before(logs, i) == Some(Marker::Boot),
{
}

/// Resolving the anchor never leaves the panel below the bottom index: the
/// newest content resolves to the bottom index itself, a fixed anchor above
/// it stays, and one below it is brought up to it. Resolving again changes
/// nothing. `bottom` is the bottom index of a log of `records` records, so
/// it is 0 for an empty log.
pub proof fn law_resolved_anchor_is_held_at_bottom(scroll: LogScroll, records: nat, bottom: usize)
    requires
        records == 0 ==> bottom == 0,
    ensures
        anchor_resolved(scroll, records, bottom) matches LogScroll::Fixed(i) && i <= bottom,
        scroll == LogScroll::TrackLatest ==> anchor_resolved(scroll, records, bottom)
            == LogScroll::Fixed(bottom),
        scroll matches LogScroll::Fixed(i) && i <= bottom && records > 0 ==> anchor_resolved(
            scroll,
            records,
            bottom,
        ) == scroll,
        anchor_resolved(anchor_resolved(scroll, records, bottom), records, bottom)
            == anchor_resolved(scroll, records, bottom),
{
}

/// The matches of a search form a cycle: stepping forward and back again, or
/// back and forward again, returns to the same match; the step forward from
/// the last match is the first, and the step back from the first is the
/// last.
pub proof fn law_matches_form_a_cycle(i: usize, len: nat)
    requires
        i < len <= usize::MAX,
    ensures
        next_match(Some(i), len) < len,
        previous_match(Some(i), len) < len,
        previous_match(Some(next_match(Some(i), len)), len) == i,
        next_match(Some(previous_match(Some(i), len)), len) == i,
        i + 1 == len ==> next_match(Some(i), len) == 0,
        i == 0 ==> previous_match(Some(i), len) == len - 1,
{
    let n = len as int;
    lemma_next_in_cycle(i as int, n);
    lemma_previous_in_cycle(i as int, n);
    vstd::arithmetic::div_mod::lemma_small_mod(i as nat, len);
    let up = next_match(Some(i), len);
    let down = previous_match(Some(i), len);
    lemma_previous_in_cycle(up as int, n);
    vstd::arithmetic::div_mod::lemma_small_mod(up as nat, len);
    lemma_next_in_cycle(down as int, n);
    vstd::arithmetic::div_mod::lemma_small_mod(down as nat, len);
}

/// The wait for input misses no timer and does not spin: it is never longer
/// than the wait for a running action or the idle wait, while live tailing
/// is active it ends no later than the tail interval and the blink interval,
/// and right after a tick it is more than nothing.
pub proof fn law_wait_misses_no_timer(
    clock: LiveTailClock,
    now: u64,
    active: bool,
    action_in_progress: bool,
)
    ensures
        0 <= clock.wait(now, active, action_in_progress) <= IDLE_POLL_NS,
        action_in_progress ==> clock.wait(now, active, action_in_progress) <= ACTION_POLL_NS,
        active ==> clock.wait(now, active, action_in_progress) <= remaining(
            now,
            clock.last_refresh,
        ),
        active ==> clock.wait(now, active, action_in_progress) <= remaining(now, clock.last_blink),
        clock.ticked(now, active).wait(now, active, action_in_progress) > 0,
{
    if active {
        let base = if clock.was_active {
            clock
        } else {
            LiveTailClock::restarted(now)
        };
        lemma_interval_start(now, base.last_refresh);
        lemma_interval_start(now, base.last_blink);
    }
}

proof fn lemma_interval_start(now: u64, since: u64)
    ensures
        elapsed(now, interval_start(now, since)) < LIVE_TAIL_INTERVAL_NS,
{
    let span = elapsed(now, since);
    let interval = LIVE_TAIL_INTERVAL_NS as int;
    let whole = span / interval;
    vstd::arithmetic::div_mod::lemma_fundamental_div_mod(span, interval);
    vstd::arithmetic::div_mod::lemma_mod_bound(span, interval);
    vstd::arithmetic::div_mod::lemma_div_pos_is_pos(span, interval);
    assert(whole * interval == interval * whole) by (nonlinear_arith);
    assert(whole * interval >= 0) by (nonlinear_arith)
        requires
            whole >= 0,
            interval > 0,
    ;
}

/// The command opens an overlay or asks for a confirmation.
pub open spec fn opens_overlay(command: Command) -> bool {
    ||| command == Command::OpenStatusPicker
    ||| command == Command::OpenTypePicker
    ||| command == Command::OpenPriorityPicker
    ||| command == Command::OpenTimePicker
    ||| command == Command::OpenFileStatePicker
    ||| command == Command::OpenActionPicker
    ||| command == Command::OpenDetails
    ||| command == Command::OpenUnitFile
    ||| command == Command::RequestDaemonReload
}

/// Overlays exclude each other: a key press asks to open an overlay only
/// while the keys go to the unit list or to the log panel, and then no
/// overlay is shown and no search is being typed. The one way from an
/// overlay to another is from the action picker to the confirmation dialog,
/// which closes the picker.
pub proof fn law_overlays_open_from_panels_only(app: App, press: KeyPress, view: Viewport)
    requires
        opens_overlay(app.command_for(press, view)),
    ensures
        app.mode() == Mode::Units || app.mode() == Mode::Logs,
        !app.overlay_shown(),
        !app.units.search_mode,
        !app.log_panel.log_search_mode,
        !app.unit_file.unit_file_search_mode,
{
}

} // verus!
