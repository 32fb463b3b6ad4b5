//! Reading one line of the log daemon's JSON output into a log record. A
//! line that is not JSON is kept as a record that carries the line as its
//! message: no line is dropped.

use vstd::prelude::*;
use vstd::string::*;
use crate::parse::{parse_i64, parse_u8, signed_value, unsigned_value};
use crate::service::{LogEntry, LogRecord};

verus! {

/// What one member of a JSON object holds, as far as a log record needs it.
#[derive(Debug, Clone, PartialEq, Eq)]
pub enum JsonMember {
    /// A string.
    Text(String),
    /// An array; each item that is an integer that fits `u64`, and nothing
    /// for any other item.
    Numbers(Vec<Option<u64>>),
    /// Anything else, or no such member.
    Other,
}

/// The mathematical content of a `JsonMember`.
pub enum JsonMemberView {
    Text(Seq<char>),
    Numbers(Seq<Option<u64>>),
    Other,
}

impl View for JsonMember {
    type V = JsonMemberView;

    open spec fn view(&self) -> JsonMemberView {
        match self {
            JsonMember::Text(s) => JsonMemberView::Text(s@),
            JsonMember::Numbers(ns) => JsonMemberView::Numbers(ns@),
            JsonMember::Other => JsonMemberView::Other,
        }
    }
}

impl DeepView for JsonMember {
    type V = JsonMemberView;

    open spec fn deep_view(&self) -> JsonMemberView {
        self@
    }
}

/// What the members named `keys` of the JSON value written by `text` hold,
/// in the order of `keys`; none where `text` is not one JSON value.
pub uninterp spec fn json_members_of(text: Seq<char>, keys: Seq<Seq<char>>) -> Option<
    Seq<JsonMemberView>,
>;

/// The text that a run of bytes decodes to as UTF-8, with a replacement
/// character for each malformed run.
pub uninterp spec fn utf8_lossy_text(bytes: Seq<u8>) -> Seq<char>;

/// Trusted: `serde_json::from_str` to a `serde_json::Value`, followed by
/// indexing that value with each key, and by `Value::as_u64` on the items of
/// a member that is an array. The result is a function of the text and the
/// keys and is named `json_members_of`. Claimed beside that: a text that
/// parses gives one member per key. Indexing gives the null value for a
/// missing member and for a value that is not an object, which is `Other`
/// here.
#[verifier::external_body]
fn json_members(line: &str, keys: &Vec<&'static str>) -> (r: Option<Vec<JsonMember>>)
    ensures
        r.deep_view() == json_members_of(line@, keys.deep_view()),
        r matches Some(members) ==> members.len() == keys.len(),
{
    let value: serde_json::Value = serde_json::from_str(line).ok()?;
    Some(
        keys.iter().map(
            |key| match &value[*key] {
                serde_json::Value::String(s) => JsonMember::Text(s.clone()),
                serde_json::Value::Array(items) => JsonMember::Numbers(
                    items.iter().map(|item| item.as_u64()).collect(),
                ),
                _ => JsonMember::Other,
            },
        ).collect(),
    )
}

/// Trusted: `String::from_utf8_lossy`, whose result is a function of the
/// bytes and is named `utf8_lossy_text`.
#[verifier::external_body]
fn utf8_lossy(bytes: &Vec<u8>) -> (r: String)
    ensures
        r@ == utf8_lossy_text(bytes@),
{
    String::from_utf8_lossy(bytes).into_owned()
}

/// The members of a journal line that a log record is made of.
pub open spec fn journal_keys() -> Seq<Seq<char>> {
    seq![
        "MESSAGE"@,
        "PRIORITY"@,
        "__REALTIME_TIMESTAMP"@,
        "_PID"@,
        "SYSLOG_IDENTIFIER"@,
        "_BOOT_ID"@,
        "_SYSTEMD_INVOCATION_ID"@,
        "__CURSOR"@,
    ]
}

/// The low byte of every item that is a number, in order.
pub open spec fn low_bytes(items: Seq<Option<u64>>) -> Seq<u8>
    decreases items.len(),
{
    if items.len() == 0 {
        Seq::empty()
    } else {
        let rest = low_bytes(items.drop_last());
        match items.last() {
            Some(n) => rest.push((n % 256) as u8),
            None => rest,
        }
    }
}

/// The text of a member that holds a string.
pub open spec fn member_text(member: JsonMemberView) -> Option<Seq<char>> {
    match member {
        JsonMemberView::Text(s) => Some(s),
        _ => None,
    }
}

/// The record that stands for a line as it is: the line is the message, and
/// nothing else is known.
pub open spec fn raw_record(line: Seq<char>) -> LogRecord {
    LogRecord {
        timestamp: None,
        priority: None,
        pid: None,
        identifier: None,
        message: line,
        boot_id: None,
        invocation_id: None,
        cursor: None,
    }
}

/// The message of a record: the string of the message member, or the text
/// that its bytes decode to where it is an array of numbers, or else the
/// whole line.
pub open spec fn message_text(line: Seq<char>, member: JsonMemberView) -> Seq<char> {
    match member {
        JsonMemberView::Text(s) => s,
        JsonMemberView::Numbers(items) => utf8_lossy_text(low_bytes(items)),
        JsonMemberView::Other => line,
    }
}

/// The number that a member holds as a decimal string.
pub open spec fn member_u8(member: JsonMemberView) -> Option<u8> {
    match member_text(member) {
        Some(s) => match unsigned_value(s, 255) {
            Some(n) => Some(n as u8),
            None => None,
        },
        None => None,
    }
}

/// The number that a member holds as a decimal string.
pub open spec fn member_i64(member: JsonMemberView) -> Option<i64> {
    match member_text(member) {
        Some(s) => match signed_value(s, i64::MIN as int, i64::MAX as int) {
            Some(n) => Some(n as i64),
            None => None,
        },
        None => None,
    }
}

/// The record that a journal line stands for, given what its members hold,
/// in the order of `journal_keys`. A line that is not JSON stands for itself.
pub open spec fn journal_record(line: Seq<char>, members: Option<Seq<JsonMemberView>>) -> LogRecord {
    match members {
        Some(m) => if m.len() == 8 {
            LogRecord {
                message: message_text(line, m[0]),
                priority: member_u8(m[1]),
                timestamp: member_i64(m[2]),
                pid: member_text(m[3]),
                identifier: member_text(m[4]),
                boot_id: member_text(m[5]),
                invocation_id: member_text(m[6]),
                cursor: member_text(m[7]),
            }
        } else {
            raw_record(line)
        },
        None => raw_record(line),
    }
}

fn bytes_of(items: &Vec<Option<u64>>) -> (r: Vec<u8>)
    ensures
        r@ == low_bytes(items@),
{
    let mut r: Vec<u8> = Vec::new();
    let mut i: usize = 0;
    while i < items.len()
        invariant
            i <= items.len(),
            r@ == low_bytes(items@.take(i as int)),
        decreases items.len() - i,
    {
        assert(items@.take(i as int + 1).drop_last() =~= items@.take(i as int));
        match items[i] {
            Some(n) => {
                r.push((n % 256) as u8);
            },
            None => {},
        }
        i = i + 1;
    }
    assert(items@.take(i as int) =~= items@);
    r
}

fn text_of(member: &JsonMember) -> (r: Option<String>)
    ensures
        r.deep_view() == member_text(member@),
{
    match member {
        JsonMember::Text(s) => Some(s.clone()),
        _ => None,
    }
}

fn raw_entry(line: &str) -> (r: LogEntry)
    ensures
        r@ == raw_record(line@),
{
    LogEntry {
        timestamp: None,
        priority: None,
        pid: None,
        identifier: None,
        message: String::from_str(line),
        boot_id: None,
        invocation_id: None,
        cursor: None,
    }
}

/// Makes the record of a journal line from what its members hold, see
/// `journal_record`.
pub fn log_entry_from_members(line: &str, members: Option<Vec<JsonMember>>) -> (r: LogEntry)
    ensures
        r@ == journal_record(line@, members.deep_view()),
{
    let m = match members {
        Some(m) => m,
        None => {
            return raw_entry(line);
        },
    };
    if m.len() != 8 {
        return raw_entry(line);
    }
    assert(forall|i: int| 0 <= i < 8 ==> #[trigger] m.deep_view()[i] == m@[i]@);
    let message = match &m[0] {
        JsonMember::Text(s) => s.clone(),
        JsonMember::Numbers(items) => {
            let bytes = bytes_of(items);
            utf8_lossy(&bytes)
        },
        JsonMember::Other => String::from_str(line),
    };
    let priority = match &m[1] {
        JsonMember::Text(s) => parse_u8(s.as_str()),
        _ => None,
    };
    let timestamp = match &m[2] {
        JsonMember::Text(s) => parse_i64(s.as_str()),
        _ => None,
    };
    LogEntry {
        timestamp,
        priority,
        pid: text_of(&m[3]),
        identifier: text_of(&m[4]),
        message,
        boot_id: text_of(&m[5]),
        invocation_id: text_of(&m[6]),
        cursor: text_of(&m[7]),
    }
}

/// Reads one line of the log daemon's JSON output into a log record, see
/// `journal_record`.
pub fn parse_journal_json_line(line: &str) -> (r: LogEntry)
    ensures
        r@ == journal_record(line@, json_members_of(line@, journal_keys())),
{
    let mut keys: Vec<&'static str> = Vec::new();
    keys.push("MESSAGE");
    keys.push("PRIORITY");
    keys.push("__REALTIME_TIMESTAMP");
    keys.push("_PID");
    keys.push("SYSLOG_IDENTIFIER");
    keys.push("_BOOT_ID");
    keys.push("_SYSTEMD_INVOCATION_ID");
    keys.push("__CURSOR");
    assert(keys.deep_view() =~= journal_keys());
    let members = json_members(line, &keys);
    log_entry_from_members(line, members)
}

} // verus!
