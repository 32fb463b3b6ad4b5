//! What a log record shows on its line: the time, the severity, where the
//! record came from, and the message with the matches of the log search set
//! off. The width of that line decides how many screen lines the record
//! takes.

use vstd::prelude::*;
use vstd::string::*;
use crate::app::App;
use crate::service::{priority_label, priority_label_text, LogEntry, LogRecord};
use crate::text::{
    chars_of, find_match, first_match, lowercase_of, string_of, to_lowercase,
};
use crate::timefmt::{format_log_timestamp, is_time_text};
use crate::viewport::{entry_height, heights_from_widths};

verus! {

/// What a part of a log line is, which decides how it is drawn.
#[derive(Debug, Clone, Copy, PartialEq, Eq, Structural)]
pub enum PartKind {
    /// The wall-clock time of the record.
    Time,
    /// A blank between two parts.
    Gap,
    /// The name of the severity, in brackets.
    Label,
    /// The program and process that wrote the record.
    Origin,
    /// Message text.
    Message,
    /// Message text that matches the log search.
    Highlight,
}

/// One part of a log line.
#[derive(Debug, Clone, PartialEq, Eq)]
pub struct LinePart {
    pub text: String,
    pub kind: PartKind,
}

/// The mathematical content of a `LinePart`.
pub struct LinePartView {
    pub text: Seq<char>,
    pub kind: PartKind,
}

impl View for LinePart {
    type V = LinePartView;

    open spec fn view(&self) -> LinePartView {
        LinePartView { text: self.text@, kind: self.kind }
    }
}

impl DeepView for LinePart {
    type V = LinePartView;

    open spec fn deep_view(&self) -> LinePartView {
        self@
    }
}

/// The number of terminal columns that a text takes.
pub uninterp spec fn display_width_of(text: Seq<char>) -> nat;

/// Trusted: `unicode_width::UnicodeWidthStr::width` on a string slice, whose
/// result is a function of the text and is named `display_width_of`.
#[verifier::external_body]
fn display_width(text: &str) -> (r: usize)
    ensures
        r == display_width_of(text@),
{
    unicode_width::UnicodeWidthStr::width(text)
}

/// The parts of `text` from position `from` on, cut at the places where
/// `needle` stands in `folded`, the lowercase form of `text`: the matches
/// are taken from left to right and do not overlap.
pub open spec fn parts_from(text: Seq<char>, folded: Seq<char>, needle: Seq<char>, from: int) -> Seq<
    LinePartView,
>
    decreases text.len() - from,
{
    if from < 0 || from >= text.len() || needle.len() == 0 || folded.len() != text.len() {
        Seq::empty()
    } else {
        let at = find_match(folded, needle, from);
        if at < from || at >= text.len() || at + needle.len() > text.len() {
            seq![LinePartView { text: text.subrange(from, text.len() as int), kind: PartKind::Message }]
        } else {
            let before = if at > from {
                seq![LinePartView { text: text.subrange(from, at), kind: PartKind::Message }]
            } else {
                Seq::<LinePartView>::empty()
            };
            before + seq![
                LinePartView {
                    text: text.subrange(at, at + needle.len()),
                    kind: PartKind::Highlight,
                },
            ] + parts_from(text, folded, needle, at + needle.len())
        }
    }
}

/// The message as one part, without highlight.
pub open spec fn plain_message(message: Seq<char>) -> Seq<LinePartView> {
    seq![LinePartView { text: message, kind: PartKind::Message }]
}

/// The search can be shown in the message: there is a query and a message,
/// and the lowercase form of the message has a character for each of its
/// characters, so that a place in the one is the same place in the other.
pub open spec fn can_highlight(message: Seq<char>, query: Seq<char>) -> bool {
    &&& query.len() > 0
    &&& message.len() > 0
    &&& lowercase_of(query).len() > 0
    &&& lowercase_of(message).len() == message.len()
}

/// The parts of a message: the text with every match of the query set off,
/// without regard to case; the message as one part where the search cannot
/// be shown.
pub open spec fn message_parts(message: Seq<char>, query: Seq<char>) -> Seq<LinePartView> {
    if can_highlight(message, query) {
        parts_from(message, lowercase_of(message), lowercase_of(query), 0)
    } else {
        plain_message(message)
    }
}

/// The part that names where a record came from.
pub open spec fn origin_parts(identifier: Option<Seq<char>>, pid: Option<Seq<char>>) -> Seq<
    LinePartView,
> {
    match (identifier, pid) {
        (Some(i), Some(p)) => seq![
            LinePartView { text: "("@ + i + "/"@ + p + "): "@, kind: PartKind::Origin },
        ],
        (Some(i), None) => seq![LinePartView { text: i + ": "@, kind: PartKind::Origin }],
        (None, Some(p)) => seq![
            LinePartView { text: "("@ + p + "): "@, kind: PartKind::Origin },
        ],
        (None, None) => Seq::empty(),
    }
}

/// The parts in front of the message: the time, where the record has one
/// that can be shown, the severity, and where the record came from.
pub open spec fn prefix_parts(entry: LogRecord, time_text: Seq<char>) -> Seq<LinePartView> {
    (if entry.timestamp is Some && time_text.len() > 0 {
        seq![
            LinePartView { text: time_text, kind: PartKind::Time },
            LinePartView { text: " "@, kind: PartKind::Gap },
        ]
    } else {
        Seq::<LinePartView>::empty()
    }) + (match entry.priority {
        Some(p) => seq![
            LinePartView { text: "["@ + priority_label_text(p) + "]"@, kind: PartKind::Label },
            LinePartView { text: " "@, kind: PartKind::Gap },
        ],
        None => Seq::<LinePartView>::empty(),
    }) + origin_parts(entry.identifier, entry.pid)
}

/// The parts of the line of a record, given the text of its time and the
/// query of the log search.
pub open spec fn line_parts(entry: LogRecord, time_text: Seq<char>, query: Seq<char>) -> Seq<
    LinePartView,
> {
    prefix_parts(entry, time_text) + message_parts(entry.message, query)
}

/// The summed widths of the first `n` parts.
pub open spec fn parts_width(parts: Seq<LinePartView>, n: int) -> nat
    decreases n,
{
    if n <= 0 {
        0
    } else {
        parts_width(parts, n - 1) + display_width_of(parts[n - 1].text)
    }
}

/// The width of a line, as far as a count of columns can hold it.
pub open spec fn line_width_of(parts: Seq<LinePartView>) -> usize {
    if parts_width(parts, parts.len() as int) > usize::MAX {
        usize::MAX
    } else {
        parts_width(parts, parts.len() as int) as usize
    }
}

fn part(text: String, kind: PartKind) -> (r: LinePart)
    ensures
        r@ == (LinePartView { text: text@, kind }),
{
    LinePart { text, kind }
}

/// The parts of a message with the matches of the query set off, see
/// `message_parts`.
pub fn highlight_search_in_message(message: &str, query: &str) -> (r: Vec<LinePart>)
    ensures
        r.deep_view() == message_parts(message@, query@),
{
    let text = chars_of(message);
    let mut parts: Vec<LinePart> = Vec::new();
    if query.is_empty() || text.len() == 0 {
        parts.push(part(String::from_str(message), PartKind::Message));
        assert(parts.deep_view() =~= plain_message(message@));
        return parts;
    }
    let folded = chars_of(to_lowercase(message).as_str());
    let needle = chars_of(to_lowercase(query).as_str());
    if needle.len() == 0 || folded.len() != text.len() {
        parts.push(part(String::from_str(message), PartKind::Message));
        assert(parts.deep_view() =~= plain_message(message@));
        return parts;
    }
    let mut pos: usize = 0;
    assert(parts.deep_view() =~= Seq::<LinePartView>::empty());
    while pos < text.len()
        invariant
            pos <= text.len(),
            text@ == message@,
            folded@ == lowercase_of(message@),
            needle@ == lowercase_of(query@),
            needle.len() > 0,
            query@.len() > 0,
            folded.len() == text.len(),
            parts_from(text@, folded@, needle@, 0) == parts.deep_view() + parts_from(
                text@,
                folded@,
                needle@,
                pos as int,
            ),
        decreases text.len() - pos,
    {
        let ghost before = parts.deep_view();
        let at = first_match(&folded, &needle, pos);
        if at >= text.len() {
            parts.push(part(string_of(&text, pos, text.len()), PartKind::Message));
            assert(parts.deep_view() =~= before + parts_from(
                text@,
                folded@,
                needle@,
                pos as int,
            ));
            return parts;
        }
        let ghost lead = if at > pos {
            seq![
                LinePartView { text: text@.subrange(pos as int, at as int), kind: PartKind::Message },
            ]
        } else {
            Seq::<LinePartView>::empty()
        };
        if at > pos {
            parts.push(part(string_of(&text, pos, at), PartKind::Message));
        }
        let end = at + needle.len();
        parts.push(part(string_of(&text, at, end), PartKind::Highlight));
        let ghost hit = seq![
            LinePartView { text: text@.subrange(at as int, end as int), kind: PartKind::Highlight },
        ];
        assert(parts.deep_view() =~= before + lead + hit);
        assert(before + (lead + hit + parts_from(text@, folded@, needle@, end as int)) =~= (before
            + lead + hit) + parts_from(text@, folded@, needle@, end as int));
        pos = end;
    }
    assert(parts_from(text@, folded@, needle@, pos as int) =~= Seq::<LinePartView>::empty());
    assert(parts.deep_view() + Seq::<LinePartView>::empty() =~= parts.deep_view());
    parts
}

/// The parts of the line of a record, given the text of its time and the
/// query of the log search, see `line_parts`.
pub fn log_line_parts(entry: &LogEntry, time_text: &str, query: &str) -> (r: Vec<LinePart>)
    ensures
        r.deep_view() == line_parts(entry@, time_text@, query@),
{
    let mut parts: Vec<LinePart> = Vec::new();
    if entry.timestamp.is_some() && !time_text.is_empty() {
        parts.push(part(String::from_str(time_text), PartKind::Time));
        parts.push(part(String::from_str(" "), PartKind::Gap));
    }
    match entry.priority {
        Some(p) => {
            let label = String::from_str("[").concat(priority_label(p)).concat("]");
            parts.push(part(label, PartKind::Label));
            parts.push(part(String::from_str(" "), PartKind::Gap));
        },
        None => {},
    }
    match (&entry.identifier, &entry.pid) {
        (Some(i), Some(p)) => {
            let text = String::from_str("(").concat(i.as_str()).concat("/").concat(
                p.as_str(),
            ).concat("): ");
            parts.push(part(text, PartKind::Origin));
        },
        (Some(i), None) => {
            parts.push(part(i.clone().concat(": "), PartKind::Origin));
        },
        (None, Some(p)) => {
            let text = String::from_str("(").concat(p.as_str()).concat("): ");
            parts.push(part(text, PartKind::Origin));
        },
        (None, None) => {},
    }
    assert(parts.deep_view() =~= prefix_parts(entry@, time_text@));
    let ghost prefix = parts.deep_view();
    let mut message = highlight_search_in_message(entry.message.as_str(), query);
    let ghost tail = message.deep_view();
    parts.append(&mut message);
    assert(parts.deep_view() =~= prefix + tail);
    parts
}

/// The parts of the line of a record as the panel shows it: with the local
/// wall-clock time of the record and the matches of `query` set off. The
/// text of the time depends on the time zone; it has 15 characters for a
/// time that is shown and is left out for a time that cannot be shown, see
/// `is_time_text`.
pub fn render_log_entry(entry: &LogEntry, query: &str) -> (r: Vec<LinePart>)
    ensures
        exists|time_text: Seq<char>|
            is_time_text(entry.timestamp, time_text) && r.deep_view() == line_parts(
                entry@,
                time_text,
                query@,
            ),
{
    let time_text = match entry.timestamp {
        Some(t) => format_log_timestamp(t),
        None => String::new(),
    };
    let parts = log_line_parts(entry, time_text.as_str(), query);
    assert(is_time_text(entry.timestamp, time_text@) && parts.deep_view() == line_parts(
        entry@,
        time_text@,
        query@,
    ));
    parts
}

/// The width of a line in terminal columns.
pub fn line_width(parts: &Vec<LinePart>) -> (r: usize)
    ensures
        r == line_width_of(parts.deep_view()),
{
    let mut total: usize = 0;
    let mut i: usize = 0;
    while i < parts.len()
        invariant
            i <= parts.len(),
            total == (if parts_width(parts.deep_view(), i as int) > usize::MAX {
                usize::MAX
            } else {
                parts_width(parts.deep_view(), i as int) as usize
            }),
        decreases parts.len() - i,
    {
        assert(parts.deep_view()[i as int] == parts@[i as int]@);
        let width = display_width(parts[i].text.as_str());
        total = if width > usize::MAX - total {
            usize::MAX
        } else {
            total + width
        };
        i = i + 1;
    }
    total
}

/// The width of the line of every record as the panel shows it.
pub open spec fn shown_line_widths(
    logs: Seq<LogRecord>,
    times: Seq<Seq<char>>,
    query: Seq<char>,
) -> Seq<usize> {
    Seq::new(logs.len(), |i: int| line_width_of(line_parts(logs[i], times[i], query)))
}

impl App {
    /// The screen height of every record of the log in a panel
    /// `content_width` columns wide: the lines that the record's line wraps
    /// into, and one more where a marker precedes the record. The lines are
    /// those that `render_log_entry` gives with the query of the log search;
    /// the text of each time is what the time zone makes of it, 15 characters
    /// for a time that is shown and nothing for one that cannot be shown.
    pub fn log_entry_visual_heights(&self, content_width: usize) -> (heights: Vec<usize>)
        ensures
            heights.len() == self.log_panel.logs.len(),
            exists|times: Seq<Seq<char>>|
                {
                    &&& times.len() == self.log_panel.logs.len()
                    &&& forall|i: int|
                        0 <= i < times.len() ==> is_time_text(
                            self.log_panel.logs@[i].timestamp,
                            #[trigger] times[i],
                        )
                    &&& forall|i: int|
                        0 <= i < heights.len() ==> (#[trigger] heights[i]) == entry_height(
                            self.log_panel.logs.deep_view(),
                            shown_line_widths(
                                self.log_panel.logs.deep_view(),
                                times,
                                self.log_panel.log_search_query@,
                            ),
                            content_width as int,
                            i,
                        )
                },
    {
        let mut widths: Vec<usize> = Vec::new();
        let ghost mut times: Seq<Seq<char>> = Seq::empty();
        let ghost records = self.log_panel.logs.deep_view();
        let ghost query = self.log_panel.log_search_query@;
        let mut i: usize = 0;
        while i < self.log_panel.logs.len()
            invariant
                i <= self.log_panel.logs.len(),
                records == self.log_panel.logs.deep_view(),
                query == self.log_panel.log_search_query@,
                widths.len() == i,
                times.len() == i,
                forall|k: int|
                    0 <= k < i ==> is_time_text(
                        self.log_panel.logs@[k].timestamp,
                        #[trigger] times[k],
                    ),
                forall|k: int|
                    0 <= k < i ==> (#[trigger] widths[k]) == line_width_of(
                        line_parts(records[k], times[k], query),
                    ),
            decreases self.log_panel.logs.len() - i,
        {
            assert(records[i as int] == self.log_panel.logs[i as int]@);
            let parts = render_log_entry(
                &self.log_panel.logs[i],
                self.log_panel.log_search_query.as_str(),
            );
            proof {
                let time_text = choose|time_text: Seq<char>|
                    is_time_text(self.log_panel.logs@[i as int].timestamp, time_text)
                        && parts.deep_view() == line_parts(records[i as int], time_text, query);
                times = times.push(time_text);
            }
            widths.push(line_width(&parts));
            i = i + 1;
        }
        let heights = heights_from_widths(&self.log_panel.logs, &widths, content_width);
        proof {
            assert(widths@ =~= shown_line_widths(records, times, query));
        }
        heights
    }
}

} // verus!
