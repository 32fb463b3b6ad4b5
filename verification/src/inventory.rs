//! Joining what the service manager lists separately into the unit list:
//! the enablement of each unit, and the detail shown for timers and sockets.

use vstd::prelude::*;
use vstd::string::*;
use crate::scan::{after_last, index_after_last};
use crate::service::{SystemdUnit, UnitView};
use crate::text::{chars_of, string_of};
use crate::timefmt::{format_relative_time, relative_time_text};

verus! {

/// The enablement of one unit file, as the service manager lists it.
#[derive(Debug, Clone)]
pub struct UnitFileEntry {
    /// The unit file, by name or by path.
    pub unit_file: String,
    pub state: String,
}

/// One fact to show beside a unit.
#[derive(Debug, Clone)]
pub struct UnitDetail {
    pub unit: String,
    pub text: String,
}

/// The part of a path after its last slash; the whole text without one.
pub open spec fn file_name_of(path: Seq<char>) -> Seq<char> {
    path.subrange(after_last(path, '/', 0, path.len() as int), path.len() as int)
}

/// The state of the last of the first `n` entries whose file is named `name`.
pub open spec fn file_state_for(entries: Seq<UnitFileEntry>, name: Seq<char>, n: int) -> Option<
    Seq<char>,
>
    decreases n,
{
    if n <= 0 {
        None
    } else if file_name_of(entries[n - 1].unit_file@) == name {
        Some(entries[n - 1].state@)
    } else {
        file_state_for(entries, name, n - 1)
    }
}

/// The text of the last of the first `n` details for the unit `name`.
pub open spec fn detail_for(details: Seq<UnitDetail>, name: Seq<char>, n: int) -> Option<
    Seq<char>,
>
    decreases n,
{
    if n <= 0 {
        None
    } else if details[n - 1].unit@ == name {
        Some(details[n - 1].text@)
    } else {
        detail_for(details, name, n - 1)
    }
}

/// The unit with the enablement that `entries` list for it; as it is where
/// they list none.
pub open spec fn with_file_state(unit: UnitView, entries: Seq<UnitFileEntry>) -> UnitView {
    match file_state_for(entries, unit.unit, entries.len() as int) {
        Some(state) => UnitView { file_state: Some(state), ..unit },
        None => unit,
    }
}

/// The unit with the detail that `details` hold for it; as it is where they
/// hold none.
pub open spec fn with_detail(unit: UnitView, details: Seq<UnitDetail>) -> UnitView {
    match detail_for(details, unit.unit, details.len() as int) {
        Some(text) => UnitView { detail: Some(text), ..unit },
        None => unit,
    }
}

/// What is shown beside a timer that fires next at `next_us`, at the time
/// `now_us`, both in microseconds since the epoch; 0 stands for no next
/// firing.
pub open spec fn timer_detail_text(next_us: u64, now_us: u64) -> Seq<char> {
    if next_us == 0 {
        "next: n/a"@
    } else {
        "next: "@ + relative_time_text(next_us, now_us)
    }
}

/// The part of a path after its last slash.
pub fn unit_file_name(path: &str) -> (r: String)
    ensures
        r@ == file_name_of(path@),
{
    let v = chars_of(path);
    let start = index_after_last(&v, '/', 0, v.len());
    string_of(&v, start, v.len())
}

/// What is shown beside a timer, see `timer_detail_text`.
pub fn timer_detail(next_us: u64, now_us: u64) -> (r: String)
    ensures
        r@ == timer_detail_text(next_us, now_us),
{
    if next_us == 0 {
        String::from_str("next: n/a")
    } else {
        String::from_str("next: ").concat(format_relative_time(next_us, now_us).as_str())
    }
}

fn find_file_state(names: &Vec<String>, entries: &Vec<UnitFileEntry>, name: &String) -> (r: Option<
    String,
>)
    requires
        names.len() == entries.len(),
        forall|i: int| 0 <= i < names.len() ==> names[i]@ == file_name_of(entries[i].unit_file@),
    ensures
        r.deep_view() == file_state_for(entries@, name@, entries.len() as int),
{
    let mut i: usize = entries.len();
    while i > 0
        invariant
            i <= entries.len(),
            names.len() == entries.len(),
            forall|k: int|
                0 <= k < names.len() ==> names[k]@ == file_name_of(entries[k].unit_file@),
            file_state_for(entries@, name@, entries.len() as int) == file_state_for(
                entries@,
                name@,
                i as int,
            ),
        decreases i,
    {
        if names[i - 1] == *name {
            return Some(entries[i - 1].state.clone());
        }
        i = i - 1;
    }
    None
}

fn find_detail(details: &Vec<UnitDetail>, name: &String) -> (r: Option<String>)
    ensures
        r.deep_view() == detail_for(details@, name@, details.len() as int),
{
    let mut i: usize = details.len();
    while i > 0
        invariant
            i <= details.len(),
            detail_for(details@, name@, details.len() as int) == detail_for(
                details@,
                name@,
                i as int,
            ),
        decreases i,
    {
        if details[i - 1].unit == *name {
            return Some(details[i - 1].text.clone());
        }
        i = i - 1;
    }
    None
}

/// Gives every unit the enablement that `entries` list for its unit file.
/// An entry may name its file by path; the last entry for a file counts;
/// a unit without an entry keeps what it has.
pub fn merge_file_states(units: &mut Vec<SystemdUnit>, entries: &Vec<UnitFileEntry>)
    ensures
        final(units).len() == old(units).len(),
        forall|i: int|
            0 <= i < old(units).len() ==> (#[trigger] final(units)[i])@ == with_file_state(
                old(units)[i]@,
                entries@,
            ),
{
    let mut names: Vec<String> = Vec::new();
    let mut k: usize = 0;
    while k < entries.len()
        invariant
            k <= entries.len(),
            names.len() == k,
            forall|i: int| 0 <= i < k ==> names[i]@ == file_name_of(entries[i].unit_file@),
        decreases entries.len() - k,
    {
        names.push(unit_file_name(entries[k].unit_file.as_str()));
        k = k + 1;
    }
    let mut i: usize = 0;
    while i < units.len()
        invariant
            i <= units.len(),
            units.len() == old(units).len(),
            names.len() == entries.len(),
            forall|j: int|
                0 <= j < names.len() ==> names[j]@ == file_name_of(entries[j].unit_file@),
            forall|j: int|
                0 <= j < i ==> (#[trigger] units[j])@ == with_file_state(old(units)[j]@, entries@),
            forall|j: int| i <= j < units.len() ==> units[j] == old(units)[j],
        decreases units.len() - i,
    {
        match find_file_state(&names, entries, &units[i].unit) {
            Some(state) => {
                units[i].file_state = Some(state);
            },
            None => {},
        }
        i = i + 1;
    }
}

/// Gives every unit the detail that `details` hold for it. The last detail
/// for a unit counts; a unit without one keeps what it has.
pub fn merge_details(units: &mut Vec<SystemdUnit>, details: &Vec<UnitDetail>)
    ensures
        final(units).len() == old(units).len(),
        forall|i: int|
            0 <= i < old(units).len() ==> (#[trigger] final(units)[i])@ == with_detail(
                old(units)[i]@,
                details@,
            ),
{
    let mut i: usize = 0;
    while i < units.len()
        invariant
            i <= units.len(),
            units.len() == old(units).len(),
            forall|j: int|
                0 <= j < i ==> (#[trigger] units[j])@ == with_detail(old(units)[j]@, details@),
            forall|j: int| i <= j < units.len() ==> units[j] == old(units)[j],
        decreases units.len() - i,
    {
        match find_detail(details, &units[i].unit) {
            Some(text) => {
                units[i].detail = Some(text);
            },
            None => {},
        }
        i = i + 1;
    }
}

} // verus!
