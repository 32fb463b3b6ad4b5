//! Reading the fact sheet of a unit from the service manager's `show`
//! output: one `Name=value` per line.

use vstd::prelude::*;
use vstd::string::*;
use crate::parse::{parse_u32, parse_u64, unsigned_value};
use crate::scan::{
    find_char, find_space, index_of_char, index_of_space, index_past_spaces, parse_timer_specs,
    range_is, skip_spaces, timer_specs,
};
use crate::service::{PropertiesView, UnitProperties};
use crate::text::{chars_of, string_of};

verus! {

/// The end of the line that starts at `from` and ends before the line feed
/// at `newline`: a carriage return in front of the line feed does not belong
/// to the line.
pub open spec fn line_end(s: Seq<char>, from: int, newline: int) -> int {
    if newline < s.len() && newline > from && s[newline - 1] == '\r' {
        newline - 1
    } else {
        newline
    }
}

/// The value that the lines of `s` from position `from` on give to `key`:
/// that of the last line that reads `key=value`, or else `found`.
pub open spec fn property_from(s: Seq<char>, key: Seq<char>, from: int, found: Seq<char>) -> Seq<
    char,
>
    decreases s.len() - from,
{
    if from < 0 || from >= s.len() {
        found
    } else {
        let newline = find_char(s, '\n', from, s.len() as int);
        let end = line_end(s, from, newline);
        let equals = find_char(s, '=', from, end);
        let value = if equals < end && s.subrange(from, equals) == key {
            s.subrange(equals + 1, end)
        } else {
            found
        };
        if newline < from || newline >= s.len() {
            value
        } else {
            property_from(s, key, newline + 1, value)
        }
    }
}

/// The value of the property `key` in the output `s`: that of the last line
/// that reads `key=value`, split at the first equals sign; empty where no
/// line names the property.
pub open spec fn property_value(s: Seq<char>, key: Seq<char>) -> Seq<char> {
    property_from(s, key, 0, Seq::empty())
}

/// The words of `s` from position `from` on: the runs of characters between
/// white space.
pub open spec fn words_from(s: Seq<char>, from: int) -> Seq<Seq<char>>
    decreases s.len() - from,
{
    let start = skip_spaces(s, from, s.len() as int);
    let end = find_space(s, start, s.len() as int);
    if start < from || start >= s.len() || end <= start || end > s.len() {
        Seq::empty()
    } else {
        seq![s.subrange(start, end)] + words_from(s, end)
    }
}

/// The words of `s`.
pub open spec fn words(s: Seq<char>) -> Seq<Seq<char>> {
    words_from(s, 0)
}

/// A counter property: the number it holds, none where the property is
/// absent, not set, unlimited, or anything else that is no number.
pub open spec fn counter_value(value: Seq<char>) -> Option<u64> {
    match unsigned_value(value, u64::MAX as nat) {
        Some(n) => Some(n as u64),
        None => None,
    }
}

/// The process id that a property holds, 0 where it holds none.
pub open spec fn pid_value(value: Seq<char>) -> u32 {
    match unsigned_value(value, u32::MAX as nat) {
        Some(n) => n as u32,
        None => 0,
    }
}

/// The fact sheet that the service manager's output `s` describes.
pub open spec fn properties_of(s: Seq<char>) -> PropertiesView {
    PropertiesView {
        fragment_path: property_value(s, "FragmentPath"@),
        unit_file_state: property_value(s, "UnitFileState"@),
        active_state: property_value(s, "ActiveState"@),
        active_enter_timestamp: property_value(s, "ActiveEnterTimestamp"@),
        sub_state: property_value(s, "SubState"@),
        load_state: property_value(s, "LoadState"@),
        description: property_value(s, "Description"@),
        main_pid: pid_value(property_value(s, "MainPID"@)),
        exec_main_start_timestamp: property_value(s, "ExecMainStartTimestamp"@),
        memory_current: counter_value(property_value(s, "MemoryCurrent"@)),
        cpu_usage_nsec: counter_value(property_value(s, "CPUUsageNSec"@)),
        requires: words(property_value(s, "Requires"@)),
        wants: words(property_value(s, "Wants"@)),
        after: words(property_value(s, "After"@)),
        before: words(property_value(s, "Before"@)),
        conflicts: words(property_value(s, "Conflicts"@)),
        triggered_by: words(property_value(s, "TriggeredBy"@)),
        triggers: words(property_value(s, "Triggers"@)),
        timers_calendar: timer_specs(property_value(s, "TimersCalendar"@)),
        timers_monotonic: timer_specs(property_value(s, "TimersMonotonic"@)),
        last_trigger_usec: property_value(s, "LastTriggerUSec"@),
        result: property_value(s, "Result"@),
        next_elapse_realtime: property_value(s, "NextElapseUSecRealtime"@),
        persistent: property_value(s, "Persistent"@),
        accuracy_usec: property_value(s, "AccuracyUSec"@),
        randomized_delay_usec: property_value(s, "RandomizedDelayUSec"@),
        paths: property_value(s, "Paths"@),
        listen: property_value(s, "Listen"@),
        accept: property_value(s, "Accept"@),
        n_connections: property_value(s, "NConnections"@),
        n_accepted: property_value(s, "NAccepted"@),
    }
}

/// The value of the property `key` in the output `v`.
pub fn property_text(v: &Vec<char>, key: &str) -> (r: String)
    ensures
        r@ == property_value(v@, key@),
{
    let k = chars_of(key);
    let mut value_from: usize = 0;
    let mut value_to: usize = 0;
    let mut start: usize = 0;
    assert(v@.subrange(0, 0) =~= Seq::<char>::empty());
    while start < v.len()
        invariant
            start <= v.len(),
            value_from <= value_to <= v.len(),
            k@ == key@,
            property_value(v@, key@) == property_from(
                v@,
                key@,
                start as int,
                v@.subrange(value_from as int, value_to as int),
            ),
        decreases v.len() - start,
    {
        let newline = index_of_char(v, '\n', start, v.len());
        let end: usize = if newline < v.len() && newline > start && v[newline - 1] == '\r' {
            newline - 1
        } else {
            newline
        };
        let equals = index_of_char(v, '=', start, end);
        if equals < end && range_is(v, start, equals, &k) {
            value_from = equals + 1;
            value_to = end;
        }
        if newline >= v.len() {
            return string_of(v, value_from, value_to);
        }
        start = newline + 1;
    }
    string_of(v, value_from, value_to)
}

/// The words of a text: the runs of characters between white space.
pub fn split_words(text: &str) -> (r: Vec<String>)
    ensures
        r.deep_view() == words(text@),
{
    let v = chars_of(text);
    let mut out: Vec<String> = Vec::new();
    let mut from: usize = 0;
    assert(out.deep_view() =~= Seq::<Seq<char>>::empty());
    loop
        invariant
            from <= v.len(),
            v@ == text@,
            words(v@) == out.deep_view() + words_from(v@, from as int),
        decreases v.len() - from,
    {
        let start = index_past_spaces(&v, from, v.len());
        if start >= v.len() {
            assert(words(v@) =~= out.deep_view());
            return out;
        }
        let end = index_of_space(&v, start, v.len());
        assert(end > start);
        let ghost before = out.deep_view();
        let word = string_of(&v, start, end);
        out.push(word);
        proof {
            assert(out.deep_view() =~= before + seq![v@.subrange(start as int, end as int)]);
            assert(before + (seq![v@.subrange(start as int, end as int)] + words_from(
                v@,
                end as int,
            )) =~= (before + seq![v@.subrange(start as int, end as int)]) + words_from(
                v@,
                end as int,
            ));
        }
        from = end;
    }
}

fn counter_of(value: &str) -> (r: Option<u64>)
    ensures
        r == counter_value(value@),
{
    parse_u64(value)
}

fn pid_of(value: &str) -> (r: u32)
    ensures
        r == pid_value(value@),
{
    match parse_u32(value) {
        Some(n) => n,
        None => 0,
    }
}

/// Reads the fact sheet of a unit from the service manager's output, see
/// `properties_of`.
pub fn parse_unit_properties(output: &str) -> (r: UnitProperties)
    ensures
        r@ == properties_of(output@),
{
    let v = chars_of(output);
    UnitProperties {
        fragment_path: property_text(&v, "FragmentPath"),
        unit_file_state: property_text(&v, "UnitFileState"),
        active_state: property_text(&v, "ActiveState"),
        active_enter_timestamp: property_text(&v, "ActiveEnterTimestamp"),
        sub_state: property_text(&v, "SubState"),
        load_state: property_text(&v, "LoadState"),
        description: property_text(&v, "Description"),
        main_pid: pid_of(property_text(&v, "MainPID").as_str()),
        exec_main_start_timestamp: property_text(&v, "ExecMainStartTimestamp"),
        memory_current: counter_of(property_text(&v, "MemoryCurrent").as_str()),
        cpu_usage_nsec: counter_of(property_text(&v, "CPUUsageNSec").as_str()),
        requires: split_words(property_text(&v, "Requires").as_str()),
        wants: split_words(property_text(&v, "Wants").as_str()),
        after: split_words(property_text(&v, "After").as_str()),
        before: split_words(property_text(&v, "Before").as_str()),
        conflicts: split_words(property_text(&v, "Conflicts").as_str()),
        triggered_by: split_words(property_text(&v, "TriggeredBy").as_str()),
        triggers: split_words(property_text(&v, "Triggers").as_str()),
        timers_calendar: parse_timer_specs(property_text(&v, "TimersCalendar").as_str()),
        timers_monotonic: parse_timer_specs(property_text(&v, "TimersMonotonic").as_str()),
        last_trigger_usec: property_text(&v, "LastTriggerUSec"),
        result: property_text(&v, "Result"),
        next_elapse_realtime: property_text(&v, "NextElapseUSecRealtime"),
        persistent: property_text(&v, "Persistent"),
        accuracy_usec: property_text(&v, "AccuracyUSec"),
        randomized_delay_usec: property_text(&v, "RandomizedDelayUSec"),
        paths: property_text(&v, "Paths"),
        listen: property_text(&v, "Listen"),
        accept: property_text(&v, "Accept"),
        n_connections: property_text(&v, "NConnections"),
        n_accepted: property_text(&v, "NAccepted"),
    }
}

} // verus!
