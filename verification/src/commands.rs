//! What is asked of the service manager and the log daemon, as argument
//! lists for the two programs, and how their answers are read. The caller
//! runs the programs.

use vstd::prelude::*;
use vstd::string::*;
use crate::app::logs::{LogQuery, TailQuery};
use crate::journal::{journal_keys, journal_record, json_members_of, parse_journal_json_line};
use crate::properties::line_end;
use crate::scan::{
    drop_spaces, end_before_spaces, find_char, index_of_char, index_past_spaces, skip_spaces,
};
use crate::service::{LogEntry, LogRecord, TimeRange, UnitAction, UnitType};
use crate::text::{chars_of, decimal_string, decimal_text, string_of};

verus! {

/// The option that selects the per-user scope, where that is asked for.
pub open spec fn scope_arguments(user_mode: bool) -> Seq<Seq<char>> {
    if user_mode {
        seq!["--user"@]
    } else {
        Seq::empty()
    }
}

/// The arguments that list the units of a category.
pub open spec fn list_units_arguments_text(unit_type: UnitType, user_mode: bool) -> Seq<Seq<char>> {
    scope_arguments(user_mode) + seq![
        "list-units"@,
        "--type="@ + unit_type.systemctl_type_text(),
        "--all"@,
        "--no-pager"@,
        "--output=json"@,
    ]
}

/// The arguments that list the unit files of a category with their
/// enablement.
pub open spec fn list_unit_files_arguments_text(unit_type: UnitType, user_mode: bool) -> Seq<
    Seq<char>,
> {
    scope_arguments(user_mode) + seq![
        "list-unit-files"@,
        "--type="@ + unit_type.systemctl_type_text(),
        "--no-pager"@,
        "--output=json"@,
    ]
}

/// The arguments that list the timers, or the sockets, with what `listing`
/// names: `list-timers` or `list-sockets`.
pub open spec fn list_details_arguments_text(listing: Seq<char>, user_mode: bool) -> Seq<
    Seq<char>,
> {
    scope_arguments(user_mode) + seq![listing, "--all"@, "--no-pager"@, "--output=json"@]
}

/// The arguments that show the properties of a unit.
pub open spec fn show_arguments_text(unit_name: Seq<char>, user_mode: bool) -> Seq<Seq<char>> {
    scope_arguments(user_mode) + seq!["show"@, unit_name, "--no-pager"@]
}

/// The arguments that print the definition file of a unit.
pub open spec fn unit_file_arguments_text(unit_name: Seq<char>, user_mode: bool) -> Seq<Seq<char>> {
    scope_arguments(user_mode) + seq!["cat"@, unit_name, "--no-pager"@]
}

/// The arguments that run an action: the verb, and the unit unless the
/// action is for the manager itself.
pub open spec fn action_arguments_text(action: UnitAction, unit_name: Seq<char>, user_mode: bool) -> Seq<
    Seq<char>,
> {
    scope_arguments(user_mode) + seq![action.verb_text()] + if action == UnitAction::DaemonReload {
        Seq::<Seq<char>>::empty()
    } else {
        seq![unit_name]
    }
}

/// The arguments that limit what is read from a log: the least severe
/// priority, and how far back.
pub open spec fn log_filter_arguments(priority: Option<u8>, time_range: TimeRange) -> Seq<
    Seq<char>,
> {
    (match priority {
        Some(p) => seq!["-p"@, decimal_text(p as nat)],
        None => Seq::<Seq<char>>::empty(),
    }) + (match time_range.since_text() {
        Some(since) => seq!["--since"@, since],
        None => Seq::<Seq<char>>::empty(),
    })
}

/// The option that names the unit whose log is read.
pub open spec fn unit_flag(user_mode: bool) -> Seq<char> {
    if user_mode {
        "--user-unit"@
    } else {
        "-u"@
    }
}

/// The arguments that read the most recent records of a unit's log.
pub open spec fn log_arguments_text(
    unit: Seq<char>,
    lines: usize,
    user_mode: bool,
    priority: Option<u8>,
    time_range: TimeRange,
) -> Seq<Seq<char>> {
    seq![
        unit_flag(user_mode),
        unit,
        "-n"@,
        decimal_text(lines as nat),
        "--no-pager"@,
        "--output=json"@,
    ] + log_filter_arguments(priority, time_range)
}

/// The arguments that read the records of a unit's log after a cursor.
pub open spec fn tail_arguments_text(
    unit: Seq<char>,
    cursor: Seq<char>,
    user_mode: bool,
    priority: Option<u8>,
    time_range: TimeRange,
) -> Seq<Seq<char>> {
    seq![
        unit_flag(user_mode),
        unit,
        "--after-cursor="@ + cursor,
        "--no-pager"@,
        "--output=json"@,
    ] + log_filter_arguments(priority, time_range)
}

/// The text without the white space around it.
pub open spec fn trimmed(s: Seq<char>) -> Seq<char> {
    let start = skip_spaces(s, 0, s.len() as int);
    s.subrange(start, drop_spaces(s, start, s.len() as int))
}

/// How an action ended, for the operator: that it succeeded, or that it
/// failed with what the service manager wrote as the reason.
pub open spec fn action_outcome_text(
    action: UnitAction,
    unit_name: Seq<char>,
    succeeded: bool,
    stderr: Seq<char>,
) -> Result<Seq<char>, Seq<char>> {
    if succeeded {
        Ok(action.label_text() + " succeeded for "@ + unit_name)
    } else {
        Err(action.label_text() + " failed: "@ + trimmed(stderr))
    }
}

/// The records of the non-empty lines of the log daemon's output from
/// position `from` on.
pub open spec fn journal_records_from(s: Seq<char>, from: int) -> Seq<LogRecord>
    decreases s.len() - from,
{
    if from < 0 || from >= s.len() {
        Seq::empty()
    } else {
        let newline = find_char(s, '\n', from, s.len() as int);
        let line = s.subrange(from, line_end(s, from, newline));
        let here = if line.len() == 0 {
            Seq::<LogRecord>::empty()
        } else {
            seq![journal_record(line, json_members_of(line, journal_keys()))]
        };
        if newline < from || newline >= s.len() {
            here
        } else {
            here + journal_records_from(s, newline + 1)
        }
    }
}

fn push_scope(args: &mut Vec<String>, user_mode: bool)
    requires
        old(args)@.len() == 0,
    ensures
        final(args).deep_view() == scope_arguments(user_mode),
{
    if user_mode {
        args.push(String::from_str("--user"));
        assert(args.deep_view() =~= scope_arguments(user_mode));
    } else {
        assert(args.deep_view() =~= scope_arguments(user_mode));
    }
}

fn push_text(args: &mut Vec<String>, text: &str)
    ensures
        final(args).deep_view() == old(args).deep_view().push(text@),
{
    let ghost before = args.deep_view();
    args.push(String::from_str(text));
    assert(args.deep_view() =~= before.push(text@));
}

fn push_string(args: &mut Vec<String>, text: String)
    ensures
        final(args).deep_view() == old(args).deep_view().push(text@),
{
    let ghost before = args.deep_view();
    args.push(text);
    assert(args.deep_view() =~= before.push(text@));
}

fn push_log_filters(args: &mut Vec<String>, priority: Option<u8>, time_range: TimeRange)
    ensures
        final(args).deep_view() == old(args).deep_view() + log_filter_arguments(
            priority,
            time_range,
        ),
{
    let ghost before = args.deep_view();
    match priority {
        Some(p) => {
            push_text(args, "-p");
            push_string(args, decimal_string(p as u64));
        },
        None => {},
    }
    match time_range.journalctl_since() {
        Some(since) => {
            push_text(args, "--since");
            push_text(args, since);
        },
        None => {},
    }
    assert(args.deep_view() =~= before + log_filter_arguments(priority, time_range));
}

/// The arguments for the service manager that list the units of a category.
pub fn list_units_arguments(unit_type: UnitType, user_mode: bool) -> (r: Vec<String>)
    ensures
        r.deep_view() == list_units_arguments_text(unit_type, user_mode),
{
    let mut args: Vec<String> = Vec::new();
    push_scope(&mut args, user_mode);
    push_text(&mut args, "list-units");
    push_string(&mut args, String::from_str("--type=").concat(unit_type.systemctl_type()));
    push_text(&mut args, "--all");
    push_text(&mut args, "--no-pager");
    push_text(&mut args, "--output=json");
    assert(args.deep_view() =~= list_units_arguments_text(unit_type, user_mode));
    args
}

/// The arguments for the service manager that list the unit files of a
/// category with their enablement.
pub fn list_unit_files_arguments(unit_type: UnitType, user_mode: bool) -> (r: Vec<String>)
    ensures
        r.deep_view() == list_unit_files_arguments_text(unit_type, user_mode),
{
    let mut args: Vec<String> = Vec::new();
    push_scope(&mut args, user_mode);
    push_text(&mut args, "list-unit-files");
    push_string(&mut args, String::from_str("--type=").concat(unit_type.systemctl_type()));
    push_text(&mut args, "--no-pager");
    push_text(&mut args, "--output=json");
    assert(args.deep_view() =~= list_unit_files_arguments_text(unit_type, user_mode));
    args
}

/// The arguments for the service manager that list the timers with their
/// next firing.
pub fn list_timers_arguments(user_mode: bool) -> (r: Vec<String>)
    ensures
        r.deep_view() == list_details_arguments_text("list-timers"@, user_mode),
{
    let mut args: Vec<String> = Vec::new();
    push_scope(&mut args, user_mode);
    push_text(&mut args, "list-timers");
    push_text(&mut args, "--all");
    push_text(&mut args, "--no-pager");
    push_text(&mut args, "--output=json");
    assert(args.deep_view() =~= list_details_arguments_text("list-timers"@, user_mode));
    args
}

/// The arguments for the service manager that list the sockets with what
/// they listen on.
pub fn list_sockets_arguments(user_mode: bool) -> (r: Vec<String>)
    ensures
        r.deep_view() == list_details_arguments_text("list-sockets"@, user_mode),
{
    let mut args: Vec<String> = Vec::new();
    push_scope(&mut args, user_mode);
    push_text(&mut args, "list-sockets");
    push_text(&mut args, "--all");
    push_text(&mut args, "--no-pager");
    push_text(&mut args, "--output=json");
    assert(args.deep_view() =~= list_details_arguments_text("list-sockets"@, user_mode));
    args
}

/// The arguments for the service manager that show the properties of a unit.
pub fn show_arguments(unit_name: &str, user_mode: bool) -> (r: Vec<String>)
    ensures
        r.deep_view() == show_arguments_text(unit_name@, user_mode),
{
    let mut args: Vec<String> = Vec::new();
    push_scope(&mut args, user_mode);
    push_text(&mut args, "show");
    push_text(&mut args, unit_name);
    push_text(&mut args, "--no-pager");
    assert(args.deep_view() =~= show_arguments_text(unit_name@, user_mode));
    args
}

/// The arguments for the service manager that print the definition file of
/// a unit.
pub fn unit_file_arguments(unit_name: &str, user_mode: bool) -> (r: Vec<String>)
    ensures
        r.deep_view() == unit_file_arguments_text(unit_name@, user_mode),
{
    let mut args: Vec<String> = Vec::new();
    push_scope(&mut args, user_mode);
    push_text(&mut args, "cat");
    push_text(&mut args, unit_name);
    push_text(&mut args, "--no-pager");
    assert(args.deep_view() =~= unit_file_arguments_text(unit_name@, user_mode));
    args
}

/// The arguments for the service manager that run an action.
pub fn action_arguments(action: UnitAction, unit_name: &str, user_mode: bool) -> (r: Vec<String>)
    ensures
        r.deep_view() == action_arguments_text(action, unit_name@, user_mode),
{
    let mut args: Vec<String> = Vec::new();
    push_scope(&mut args, user_mode);
    push_text(&mut args, action.systemctl_verb());
    match action {
        UnitAction::DaemonReload => {},
        _ => {
            push_text(&mut args, unit_name);
        },
    }
    assert(args.deep_view() =~= action_arguments_text(action, unit_name@, user_mode));
    args
}

/// The arguments for the log daemon that read the most recent records of a
/// unit's log.
pub fn log_arguments(query: &LogQuery) -> (r: Vec<String>)
    ensures
        r.deep_view() == log_arguments_text(
            query.unit@,
            query.lines,
            query.user_mode,
            query.priority,
            query.time_range,
        ),
{
    let mut args: Vec<String> = Vec::new();
    assert(args.deep_view() =~= Seq::<Seq<char>>::empty());
    push_text(
        &mut args,
        if query.user_mode {
            "--user-unit"
        } else {
            "-u"
        },
    );
    push_text(&mut args, query.unit.as_str());
    push_text(&mut args, "-n");
    push_string(&mut args, decimal_string(query.lines as u64));
    push_text(&mut args, "--no-pager");
    push_text(&mut args, "--output=json");
    let ghost head = args.deep_view();
    assert(head =~= seq![
        unit_flag(query.user_mode),
        query.unit@,
        "-n"@,
        decimal_text(query.lines as nat),
        "--no-pager"@,
        "--output=json"@,
    ]);
    push_log_filters(&mut args, query.priority, query.time_range);
    args
}

/// The arguments for the log daemon that read the records of a unit's log
/// after a cursor.
pub fn tail_arguments(query: &TailQuery) -> (r: Vec<String>)
    ensures
        r.deep_view() == tail_arguments_text(
            query.unit@,
            query.cursor@,
            query.user_mode,
            query.priority,
            query.time_range,
        ),
{
    let mut args: Vec<String> = Vec::new();
    assert(args.deep_view() =~= Seq::<Seq<char>>::empty());
    push_text(
        &mut args,
        if query.user_mode {
            "--user-unit"
        } else {
            "-u"
        },
    );
    push_text(&mut args, query.unit.as_str());
    push_string(&mut args, String::from_str("--after-cursor=").concat(query.cursor.as_str()));
    push_text(&mut args, "--no-pager");
    push_text(&mut args, "--output=json");
    let ghost head = args.deep_view();
    assert(head =~= seq![
        unit_flag(query.user_mode),
        query.unit@,
        "--after-cursor="@ + query.cursor@,
        "--no-pager"@,
        "--output=json"@,
    ]);
    push_log_filters(&mut args, query.priority, query.time_range);
    args
}

/// The text without the white space around it.
pub fn trim(text: &str) -> (r: String)
    ensures
        r@ == trimmed(text@),
{
    let v = chars_of(text);
    let start = index_past_spaces(&v, 0, v.len());
    let end = end_before_spaces(&v, start, v.len());
    string_of(&v, start, end)
}

/// How an action ended, for the operator, see `action_outcome_text`.
pub fn action_outcome(action: UnitAction, unit_name: &str, succeeded: bool, stderr: &str) -> (r:
    Result<String, String>)
    ensures
        match r {
            Ok(m) => action_outcome_text(action, unit_name@, succeeded, stderr@) == Ok::<
                Seq<char>,
                Seq<char>,
            >(m@),
            Err(m) => action_outcome_text(action, unit_name@, succeeded, stderr@) == Err::<
                Seq<char>,
                Seq<char>,
            >(m@),
        },
{
    if succeeded {
        Ok(String::from_str(action.label()).concat(" succeeded for ").concat(unit_name))
    } else {
        Err(String::from_str(action.label()).concat(" failed: ").concat(trim(stderr).as_str()))
    }
}

/// Reads the log daemon's output, one JSON object per line, into records.
/// Empty lines are passed over; every other line gives a record, see
/// `parse_journal_json_line`.
pub fn parse_journal_output(output: &str) -> (r: Vec<LogEntry>)
    ensures
        r.deep_view() == journal_records_from(output@, 0),
{
    let v = chars_of(output);
    let mut out: Vec<LogEntry> = Vec::new();
    let mut start: usize = 0;
    assert(out.deep_view() =~= Seq::<LogRecord>::empty());
    while start < v.len()
        invariant
            start <= v.len(),
            v@ == output@,
            journal_records_from(v@, 0) == out.deep_view() + journal_records_from(
                v@,
                start as int,
            ),
        decreases v.len() - start,
    {
        let newline = index_of_char(&v, '\n', start, v.len());
        let end: usize = if newline < v.len() && newline > start && v[newline - 1] == '\r' {
            newline - 1
        } else {
            newline
        };
        let ghost before = out.deep_view();
        let ghost line = v@.subrange(start as int, end as int);
        let ghost here = if line.len() == 0 {
            Seq::<LogRecord>::empty()
        } else {
            seq![journal_record(line, json_members_of(line, journal_keys()))]
        };
        if end > start {
            let text = string_of(&v, start, end);
            let entry = parse_journal_json_line(text.as_str());
            out.push(entry);
        }
        assert(out.deep_view() =~= before + here);
        if newline >= v.len() {
            assert(journal_records_from(v@, 0) =~= out.deep_view());
            return out;
        }
        assert(before + (here + journal_records_from(v@, newline as int + 1)) =~= (before + here)
            + journal_records_from(v@, newline as int + 1));
        start = newline + 1;
    }
    assert(journal_records_from(v@, 0) =~= out.deep_view());
    out
}

} // verus!
