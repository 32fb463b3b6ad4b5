//! The log viewport: where a record stream is discontinuous, how tall each
//! record is on screen, and which record a viewport anchored at the newest
//! content starts with.

use vstd::prelude::*;
use crate::service::{LogEntry, LogRecord};

verus! {

/// Where the log panel is anchored.
#[derive(Debug, Clone, Copy, PartialEq, Eq, Structural)]
pub enum LogScroll {
    /// The panel starts at the record with this index.
    Fixed(usize),
    /// The panel shows the newest records; the index is resolved once the
    /// panel's geometry is known.
    TrackLatest,
}

/// A discontinuity in a record stream.
#[derive(Debug, Clone, Copy, PartialEq, Eq, Structural)]
pub enum Marker {
    /// The host was rebooted between two records.
    Boot,
    /// The unit's process was started anew between two records.
    Restart,
}

/// One visual row group of the log panel.
#[derive(Debug, Clone, Copy, PartialEq, Eq, Structural)]
pub enum LogRow {
    /// The reboot marker drawn above the record with this index.
    BootMarker(usize),
    /// The restart marker drawn above the record with this index.
    RestartMarker(usize),
    /// The record with this index.
    Entry(usize),
}

/// Both records carry a boot id and the two differ.
pub open spec fn boot_changed(prev: LogRecord, current: LogRecord) -> bool {
    prev.boot_id is Some && current.boot_id is Some && prev.boot_id != current.boot_id
}

/// The boot id did not change, and `current` carries an invocation id that
/// differs from the last one known.
pub open spec fn invocation_changed(
    prev: LogRecord,
    current: LogRecord,
    last_known: Option<Seq<char>>,
) -> bool {
    !boot_changed(prev, current) && last_known is Some && current.invocation_id is Some
        && last_known != current.invocation_id
}

/// The invocation id of the latest of the first `n` records that carries one.
pub open spec fn last_known_invocation(logs: Seq<LogRecord>, n: int) -> Option<Seq<char>>
    decreases n,
{
    if n <= 0 {
        None
    } else if logs[n - 1].invocation_id is Some {
        logs[n - 1].invocation_id
    } else {
        last_known_invocation(logs, n - 1)
    }
}

/// The marker drawn between record `i - 1` and record `i`, if any. A change
/// of boot id takes precedence over a change of invocation id.
pub open spec fn marker_before(logs: Seq<LogRecord>, i: int) -> Option<Marker> {
    if i <= 0 || i >= logs.len() {
        None
    } else if boot_changed(logs[i - 1], logs[i]) {
        Some(Marker::Boot)
    } else if invocation_changed(logs[i - 1], logs[i], last_known_invocation(logs, i)) {
        Some(Marker::Restart)
    } else {
        None
    }
}

/// Whether a reboot marker, or else a restart marker, belongs between `prev`
/// and `current`, given the last invocation id seen before `current`.
pub fn log_boundary_before_entry(
    prev: &LogEntry,
    current: &LogEntry,
    last_invocation_id: Option<&str>,
) -> (r: (bool, bool))
    ensures
        r.0 == boot_changed(prev@, current@),
        r.1 == invocation_changed(prev@, current@, last_invocation_id.deep_view()),
{
    let boot = match (&prev.boot_id, &current.boot_id) {
        (Some(a), Some(b)) => !(*a == *b),
        _ => false,
    };
    let invocation = !boot && match (last_invocation_id, &current.invocation_id) {
        (Some(a), Some(b)) => !crate::text::str_eq(a, b.as_str()),
        _ => false,
    };
    (boot, invocation)
}

/// The invocation id of the latest record before index `n` that carries one.
pub fn last_invocation_before(logs: &Vec<LogEntry>, n: usize) -> (r: Option<&str>)
    ensures
        r.deep_view() == last_known_invocation(
            logs.deep_view(),
            if n <= logs.len() {
                n as int
            } else {
                logs.len() as int
            },
        ),
{
    let mut i: usize = if n <= logs.len() {
        n
    } else {
        logs.len()
    };
    let ghost top = i as int;
    while i > 0
        invariant
            i <= logs.len(),
            top == (if n <= logs.len() {
                n as int
            } else {
                logs.len() as int
            }),
            last_known_invocation(logs.deep_view(), i as int) == last_known_invocation(
                logs.deep_view(),
                top,
            ),
        decreases i,
    {
        assert(logs.deep_view()[i - 1] == logs@[i - 1]@);
        match &logs[i - 1].invocation_id {
            Some(id) => {
                return Some(id.as_str());
            },
            None => {},
        }
        i = i - 1;
    }
    None
}

/// The number of screen lines a rendered line of `line_width` columns takes
/// in a panel `content_width` columns wide: one in a panel without width,
/// else the width, taken as at least one column, divided by the panel width
/// and rounded up.
pub open spec fn wrapped_lines(line_width: int, content_width: int) -> int {
    if content_width <= 0 {
        1
    } else if line_width <= 1 {
        1
    } else {
        (line_width - 1) / content_width + 1
    }
}

/// `wrapped_lines` is the least number of panel lines that hold the width.
pub proof fn lemma_wrapped_lines_is_ceiling(line_width: int, content_width: int)
    requires
        line_width >= 1,
        content_width >= 1,
    ensures
        wrapped_lines(line_width, content_width) * content_width >= line_width,
        (wrapped_lines(line_width, content_width) - 1) * content_width < line_width,
{
    let q = (line_width - 1) / content_width;
    assert(q * content_width <= line_width - 1 < (q + 1) * content_width) by (nonlinear_arith)
        requires
            q == (line_width - 1) / content_width,
            content_width >= 1,
            line_width >= 1,
    ;
}

/// The number of screen lines of a rendered line, see `wrapped_lines`.
pub fn wrapped_line_count(line_width: usize, content_width: usize) -> (r: usize)
    ensures
        r == wrapped_lines(line_width as int, content_width as int),
        r >= 1,
{
    if content_width == 0 || line_width <= 1 {
        1
    } else {
        (line_width - 1) / content_width + 1
    }
}

/// The screen height of record `i`: its wrapped lines, and one more where a
/// marker precedes it; no more than a count of lines can hold.
pub open spec fn entry_height(
    logs: Seq<LogRecord>,
    line_widths: Seq<usize>,
    content_width: int,
    i: int,
) -> int {
    let lines = wrapped_lines(line_widths[i] as int, content_width) + if marker_before(logs, i)
        is Some {
        1int
    } else {
        0int
    };
    if lines > usize::MAX {
        usize::MAX as int
    } else {
        lines
    }
}

/// The screen height of every record, given the width of each record's
/// rendered line and the width of the panel.
pub fn heights_from_widths(
    logs: &Vec<LogEntry>,
    line_widths: &Vec<usize>,
    content_width: usize,
) -> (heights: Vec<usize>)
    requires
        line_widths.len() == logs.len(),
    ensures
        heights.len() == logs.len(),
        forall|i: int|
            0 <= i < heights.len() ==> (#[trigger] heights[i]) == entry_height(
                logs.deep_view(),
                line_widths@,
                content_width as int,
                i,
            ),
{
    let mut heights: Vec<usize> = Vec::new();
    let mut last: Option<&str> = None;
    let mut i: usize = 0;
    while i < logs.len()
        invariant
            i <= logs.len(),
            line_widths.len() == logs.len(),
            heights.len() == i,
            last.deep_view() == last_known_invocation(logs.deep_view(), i as int),
            forall|k: int|
                0 <= k < i ==> (#[trigger] heights[k]) == entry_height(
                    logs.deep_view(),
                    line_widths@,
                    content_width as int,
                    k,
                ),
        decreases logs.len() - i,
    {
        let mut lines = wrapped_line_count(line_widths[i], content_width);
        if i > 0 {
            let (boot, invocation) = log_boundary_before_entry(&logs[i - 1], &logs[i], last);
            if (boot || invocation) && lines < usize::MAX {
                lines = lines + 1;
            }
        }
        match &logs[i].invocation_id {
            Some(id) => {
                last = Some(id.as_str());
            },
            None => {},
        }
        heights.push(lines);
        i = i + 1;
    }
    heights
}

/// The height a record is counted with: at least one line.
pub open spec fn row_height(h: usize) -> int {
    if h == 0 {
        1
    } else {
        h as int
    }
}

/// The summed heights of the records from index `i` to the end.
pub open spec fn height_from(heights: Seq<usize>, i: int) -> int
    decreases heights.len() - i,
{
    if i < 0 || i >= heights.len() {
        0
    } else {
        row_height(heights[i]) + height_from(heights, i + 1)
    }
}

/// `r` is the index a viewport of `visible` lines anchored at the newest
/// content starts with: the smallest index from which the records to the end
/// fit, or the last index where the last record alone does not fit. In a
/// viewport without lines no record fits, so that is the last index. Without
/// records it is 0.
pub open spec fn is_bottom_index(heights: Seq<usize>, visible: int, r: int) -> bool {
    if heights.len() == 0 {
        r == 0
    } else {
        &&& 0 <= r < heights.len()
        &&& height_from(heights, r) <= visible || r == heights.len() - 1
        &&& r > 0 ==> height_from(heights, r - 1) > visible
    }
}

/// The summed heights grow strictly towards the front and are never negative.
pub proof fn lemma_height_from_monotone(heights: Seq<usize>, i: int, j: int)
    requires
        0 <= i <= j <= heights.len(),
    ensures
        height_from(heights, i) >= height_from(heights, j) + (j - i),
        height_from(heights, j) >= 0,
    decreases heights.len() - i,
{
    if i < j {
        lemma_height_from_monotone(heights, i + 1, j);
    } else {
        lemma_height_nonnegative(heights, j);
    }
}

proof fn lemma_height_nonnegative(heights: Seq<usize>, j: int)
    ensures
        height_from(heights, j) >= 0,
    decreases heights.len() - j,
{
    if 0 <= j < heights.len() {
        lemma_height_nonnegative(heights, j + 1);
    }
}

/// At most one index is the bottom index of a viewport.
pub proof fn lemma_bottom_index_unique(heights: Seq<usize>, visible: int, a: int, b: int)
    requires
        is_bottom_index(heights, visible, a),
        is_bottom_index(heights, visible, b),
    ensures
        a == b,
{
    if heights.len() > 0 {
        let last = heights.len() - 1;
        if a < b {
            lemma_height_from_monotone(heights, a, b - 1);
            lemma_height_from_monotone(heights, a, last);
            lemma_height_from_monotone(heights, b - 1, last);
        } else if b < a {
            lemma_height_from_monotone(heights, b, a - 1);
            lemma_height_from_monotone(heights, b, last);
            lemma_height_from_monotone(heights, a - 1, last);
        }
    }
}

/// The index a viewport of `visible_lines` lines anchored at the newest
/// content starts with, see `is_bottom_index`.
pub fn bottom_scroll_index(entry_heights: &[usize], visible_lines: usize) -> (r: usize)
    ensures
        is_bottom_index(entry_heights@, visible_lines as int, r as int),
{
    let len = entry_heights.len();
    if len == 0 {
        return 0;
    }
    let mut used: usize = 0;
    let mut idx: usize = len;
    while idx > 0
        invariant
            idx <= len,
            len == entry_heights@.len(),
            used == height_from(entry_heights@, idx as int),
            used <= visible_lines,
            used == 0 <==> idx == len,
        decreases idx,
    {
        let h: usize = if entry_heights[idx - 1] == 0 {
            1
        } else {
            entry_heights[idx - 1]
        };
        if h > visible_lines - used {
            proof {
                let hs = entry_heights@;
                assert(height_from(hs, idx as int - 1) == row_height(hs[idx as int - 1])
                    + height_from(hs, idx as int));
                if used == 0 && len >= 2 {
                    assert(height_from(hs, len as int - 2) == row_height(hs[len as int - 2])
                        + height_from(hs, len as int - 1));
                }
            }
            return if used == 0 {
                idx - 1
            } else {
                idx
            };
        }
        used = used + h;
        idx = idx - 1;
    }
    0
}

/// The rows that record `i` contributes: its marker, if any, and the record.
pub open spec fn rows_of_entry(logs: Seq<LogRecord>, i: int) -> Seq<LogRow> {
    match marker_before(logs, i) {
        Some(Marker::Boot) => seq![LogRow::BootMarker(i as usize), LogRow::Entry(i as usize)],
        Some(Marker::Restart) => seq![LogRow::RestartMarker(i as usize), LogRow::Entry(i as usize)],
        None => seq![LogRow::Entry(i as usize)],
    }
}

/// The rows of the records `from..to`, in order.
pub open spec fn rows_between(logs: Seq<LogRecord>, from: int, to: int) -> Seq<LogRow>
    decreases to - from,
{
    if to <= from {
        Seq::empty()
    } else {
        rows_between(logs, from, to - 1) + rows_of_entry(logs, to - 1)
    }
}

/// The rows shown by a panel of `visible` rows that starts at record
/// `scroll`: the rows from that record on, cut off after `visible` of them.
pub open spec fn visible_rows(logs: Seq<LogRecord>, scroll: int, visible: int) -> Seq<LogRow> {
    let all = rows_between(logs, scroll, logs.len() as int);
    if all.len() <= visible {
        all
    } else {
        all.take(visible)
    }
}

proof fn lemma_rows_prefix(logs: Seq<LogRecord>, from: int, mid: int, to: int)
    requires
        from <= mid <= to,
    ensures
        rows_between(logs, from, mid).len() <= rows_between(logs, from, to).len(),
        rows_between(logs, from, to).take(rows_between(logs, from, mid).len() as int)
            == rows_between(logs, from, mid),
    decreases to - mid,
{
    if mid < to {
        lemma_rows_prefix(logs, from, mid, to - 1);
        let a = rows_between(logs, from, mid);
        let b = rows_between(logs, from, to - 1);
        let c = rows_between(logs, from, to);
        assert(c.take(a.len() as int) =~= b.take(a.len() as int));
    } else {
        assert(rows_between(logs, from, to).take(rows_between(logs, from, mid).len() as int)
            =~= rows_between(logs, from, mid));
    }
}

/// The rows of the log panel: which markers and records a panel of
/// `visible_lines` rows shows when it starts at record `scroll`.
pub fn visible_log_rows(logs: &Vec<LogEntry>, scroll: usize, visible_lines: usize) -> (rows: Vec<
    LogRow,
>)
    ensures
        rows@ == visible_rows(logs.deep_view(), scroll as int, visible_lines as int),
{
    let mut rows: Vec<LogRow> = Vec::new();
    let mut last: Option<&str> = last_invocation_before(logs, scroll);
    let mut i: usize = scroll;
    let ghost records = logs.deep_view();
    let ghost end = logs.len() as int;
    while i < logs.len() && rows.len() < visible_lines
        invariant
            scroll <= i,
            i <= logs.len() || i == scroll,
            records == logs.deep_view(),
            end == logs.len(),
            rows@ == rows_between(records, scroll as int, i as int),
            rows.len() <= visible_lines,
            i <= logs.len() ==> last.deep_view() == last_known_invocation(records, i as int),
        decreases logs.len() - i,
    {
        let ghost before = rows@;
        let mut marked: bool = false;
        if i > 0 {
            let (boot, invocation) = log_boundary_before_entry(&logs[i - 1], &logs[i], last);
            if boot {
                rows.push(LogRow::BootMarker(i));
                marked = true;
            } else if invocation {
                rows.push(LogRow::RestartMarker(i));
                marked = true;
            }
        }
        if marked && rows.len() >= visible_lines {
            proof {
                let upto = rows_between(records, scroll as int, i as int + 1);
                lemma_rows_prefix(records, scroll as int, i as int + 1, end);
                assert(upto == before + rows_of_entry(records, i as int));
                assert(upto.take(visible_lines as int) =~= rows@);
                let all = rows_between(records, scroll as int, end);
                assert(all.take(visible_lines as int) =~= all.take(upto.len() as int).take(
                    visible_lines as int,
                ));
            }
            return rows;
        }
        match &logs[i].invocation_id {
            Some(id) => {
                last = Some(id.as_str());
            },
            None => {},
        }
        rows.push(LogRow::Entry(i));
        assert(rows@ =~= before + rows_of_entry(records, i as int));
        i = i + 1;
    }
    proof {
        if i < logs.len() {
            lemma_rows_prefix(records, scroll as int, i as int, end);
        }
        let all = rows_between(records, scroll as int, end);
        if all.len() > visible_lines {
            assert(i < logs.len());
        }
    }
    rows
}

} // verus!
