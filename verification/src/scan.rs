//! Scanning text by position: finding a character, skipping white space,
//! and the formats that are read with these steps.

use vstd::prelude::*;
use crate::text::{chars_of, string_of};

verus! {

/// White space, as Unicode defines it.
pub open spec fn is_space(c: char) -> bool {
    ||| '\u{9}' <= c <= '\u{d}'
    ||| c == ' '
    ||| c == '\u{85}'
    ||| c == '\u{a0}'
    ||| c == '\u{1680}'
    ||| '\u{2000}' <= c <= '\u{200a}'
    ||| c == '\u{2028}'
    ||| c == '\u{2029}'
    ||| c == '\u{202f}'
    ||| c == '\u{205f}'
    ||| c == '\u{3000}'
}

/// The first position in `from..to` that holds `c`, or `to`.
pub open spec fn find_char(s: Seq<char>, c: char, from: int, to: int) -> int
    decreases to - from,
{
    if from >= to {
        to
    } else if s[from] == c {
        from
    } else {
        find_char(s, c, from + 1, to)
    }
}

/// The first position in `from..to` that does not hold `c`, or `to`.
pub open spec fn skip_char(s: Seq<char>, c: char, from: int, to: int) -> int
    decreases to - from,
{
    if from >= to {
        to
    } else if s[from] != c {
        from
    } else {
        skip_char(s, c, from + 1, to)
    }
}

/// The first position in `from..to` that does not hold white space, or `to`.
pub open spec fn skip_spaces(s: Seq<char>, from: int, to: int) -> int
    decreases to - from,
{
    if from >= to {
        to
    } else if !is_space(s[from]) {
        from
    } else {
        skip_spaces(s, from + 1, to)
    }
}

/// The first position in `from..to` that holds white space, or `to`.
pub open spec fn find_space(s: Seq<char>, from: int, to: int) -> int
    decreases to - from,
{
    if from >= to {
        to
    } else if is_space(s[from]) {
        from
    } else {
        find_space(s, from + 1, to)
    }
}

/// The end of `from..to` without the white space at its end.
pub open spec fn drop_spaces(s: Seq<char>, from: int, to: int) -> int
    decreases to - from,
{
    if to <= from {
        from
    } else if !is_space(s[to - 1]) {
        to
    } else {
        drop_spaces(s, from, to - 1)
    }
}

/// The position after the last `c` in `from..to`, or `from`.
pub open spec fn after_last(s: Seq<char>, c: char, from: int, to: int) -> int
    decreases to - from,
{
    if to <= from {
        from
    } else if s[to - 1] == c {
        to
    } else {
        after_last(s, c, from, to - 1)
    }
}

/// Whether `c` is white space.
pub fn char_is_space(c: char) -> (r: bool)
    ensures
        r == is_space(c),
{
    (c >= '\u{9}' && c <= '\u{d}') || c == ' ' || c == '\u{85}' || c == '\u{a0}' || c
        == '\u{1680}' || (c >= '\u{2000}' && c <= '\u{200a}') || c == '\u{2028}' || c
        == '\u{2029}' || c == '\u{202f}' || c == '\u{205f}' || c == '\u{3000}'
}

/// The first position in `from..to` that holds `c`, or `to`.
pub fn index_of_char(v: &Vec<char>, c: char, from: usize, to: usize) -> (r: usize)
    requires
        from <= to <= v.len(),
    ensures
        r == find_char(v@, c, from as int, to as int),
        from <= r <= to,
        r < to ==> v@[r as int] == c,
{
    let mut i: usize = from;
    while i < to
        invariant
            from <= i <= to <= v.len(),
            find_char(v@, c, from as int, to as int) == find_char(v@, c, i as int, to as int),
        decreases to - i,
    {
        if v[i] == c {
            return i;
        }
        i = i + 1;
    }
    to
}

/// The first position in `from..to` that does not hold `c`, or `to`.
pub fn index_past_char(v: &Vec<char>, c: char, from: usize, to: usize) -> (r: usize)
    requires
        from <= to <= v.len(),
    ensures
        r == skip_char(v@, c, from as int, to as int),
        from <= r <= to,
{
    let mut i: usize = from;
    while i < to
        invariant
            from <= i <= to <= v.len(),
            skip_char(v@, c, from as int, to as int) == skip_char(v@, c, i as int, to as int),
        decreases to - i,
    {
        if v[i] != c {
            return i;
        }
        i = i + 1;
    }
    to
}

/// The first position in `from..to` that does not hold white space, or
/// `to`.
pub fn index_past_spaces(v: &Vec<char>, from: usize, to: usize) -> (r: usize)
    requires
        from <= to <= v.len(),
    ensures
        r == skip_spaces(v@, from as int, to as int),
        from <= r <= to,
        r < to ==> !is_space(v@[r as int]),
{
    let mut i: usize = from;
    while i < to
        invariant
            from <= i <= to <= v.len(),
            skip_spaces(v@, from as int, to as int) == skip_spaces(v@, i as int, to as int),
        decreases to - i,
    {
        if !char_is_space(v[i]) {
            return i;
        }
        i = i + 1;
    }
    to
}

/// The first position in `from..to` that holds white space, or `to`.
pub fn index_of_space(v: &Vec<char>, from: usize, to: usize) -> (r: usize)
    requires
        from <= to <= v.len(),
    ensures
        r == find_space(v@, from as int, to as int),
        from <= r <= to,
        r < to ==> is_space(v@[r as int]),
{
    let mut i: usize = from;
    while i < to
        invariant
            from <= i <= to <= v.len(),
            find_space(v@, from as int, to as int) == find_space(v@, i as int, to as int),
        decreases to - i,
    {
        if char_is_space(v[i]) {
            return i;
        }
        i = i + 1;
    }
    to
}

/// The end of `from..to` without the white space at its end.
pub fn end_before_spaces(v: &Vec<char>, from: usize, to: usize) -> (r: usize)
    requires
        from <= to <= v.len(),
    ensures
        r == drop_spaces(v@, from as int, to as int),
        from <= r <= to,
{
    let mut i: usize = to;
    while i > from
        invariant
            from <= i <= to <= v.len(),
            drop_spaces(v@, from as int, to as int) == drop_spaces(v@, from as int, i as int),
        decreases i - from,
    {
        if !char_is_space(v[i - 1]) {
            return i;
        }
        i = i - 1;
    }
    from
}

/// The position after the last `c` in `from..to`, or `from`.
pub fn index_after_last(v: &Vec<char>, c: char, from: usize, to: usize) -> (r: usize)
    requires
        from <= to <= v.len(),
    ensures
        r == after_last(v@, c, from as int, to as int),
        from <= r <= to,
{
    let mut i: usize = to;
    while i > from
        invariant
            from <= i <= to <= v.len(),
            after_last(v@, c, from as int, to as int) == after_last(
                v@,
                c,
                from as int,
                i as int,
            ),
        decreases i - from,
    {
        if v[i - 1] == c {
            return i;
        }
        i = i - 1;
    }
    from
}

/// Whether `v[from..to]` reads `key`.
pub fn range_is(v: &Vec<char>, from: usize, to: usize, key: &Vec<char>) -> (r: bool)
    requires
        from <= to <= v.len(),
    ensures
        r == (v@.subrange(from as int, to as int) == key@),
{
    if to - from != key.len() {
        return false;
    }
    let mut i: usize = 0;
    while i < key.len()
        invariant
            from <= to <= v.len(),
            to - from == key.len(),
            i <= key.len(),
            forall|k: int| 0 <= k < i ==> v@[from + k] == key@[k],
        decreases key.len() - i,
    {
        if v[from + i] != key[i] {
            assert(v@.subrange(from as int, to as int)[i as int] != key@[i as int]);
            return false;
        }
        i = i + 1;
    }
    assert(v@.subrange(from as int, to as int) =~= key@);
    true
}

/// The schedule that the chunk `from..to` of a timer property holds: the
/// chunk without surrounding white space and opening braces, up to its first
/// semicolon, without surrounding white space; none where that is empty.
pub open spec fn timer_spec_in(s: Seq<char>, from: int, to: int) -> Option<Seq<char>> {
    let start = skip_spaces(s, from, to);
    let end = drop_spaces(s, start, to);
    let body = skip_spaces(s, skip_char(s, '{', start, end), end);
    if body >= end {
        None
    } else {
        let semi = find_char(s, ';', body, end);
        let head = skip_spaces(s, body, semi);
        let tail = drop_spaces(s, head, semi);
        if head >= tail {
            None
        } else {
            Some(s.subrange(head, tail))
        }
    }
}

/// The schedules of the chunks of a timer property from position `from` on;
/// a chunk ends at a closing brace.
pub open spec fn timer_specs_from(s: Seq<char>, from: int) -> Seq<Seq<char>>
    decreases s.len() - from,
{
    let end = find_char(s, '}', from, s.len() as int);
    let here = match timer_spec_in(s, from, end) {
        Some(spec) => seq![spec],
        None => Seq::empty(),
    };
    if end < from || end >= s.len() {
        here
    } else {
        here + timer_specs_from(s, end + 1)
    }
}

/// The schedules that a timer property lists, such as
/// `{ OnCalendar=daily ; next_elapse=... }{ OnBootSec=15min ; ... }`.
pub open spec fn timer_specs(s: Seq<char>) -> Seq<Seq<char>> {
    if s.len() == 0 {
        Seq::empty()
    } else {
        timer_specs_from(s, 0)
    }
}

fn timer_spec_at(v: &Vec<char>, from: usize, to: usize) -> (r: Option<String>)
    requires
        from <= to <= v.len(),
    ensures
        r.deep_view() == timer_spec_in(v@, from as int, to as int),
{
    let start = index_past_spaces(v, from, to);
    let end = end_before_spaces(v, start, to);
    let brace = index_past_char(v, '{', start, end);
    let body = index_past_spaces(v, brace, end);
    if body >= end {
        return None;
    }
    let semi = index_of_char(v, ';', body, end);
    let head = index_past_spaces(v, body, semi);
    let tail = end_before_spaces(v, head, semi);
    if head >= tail {
        None
    } else {
        Some(string_of(v, head, tail))
    }
}

/// Reads the schedules that a timer property lists, see `timer_specs`.
pub fn parse_timer_specs(raw: &str) -> (r: Vec<String>)
    ensures
        r.deep_view() == timer_specs(raw@),
{
    let v = chars_of(raw);
    let mut out: Vec<String> = Vec::new();
    if v.len() == 0 {
        assert(out.deep_view() =~= Seq::<Seq<char>>::empty());
        return out;
    }
    let mut start: usize = 0;
    loop
        invariant
            start <= v.len(),
            v@ == raw@,
            timer_specs_from(v@, 0) == out.deep_view() + timer_specs_from(v@, start as int),
        decreases v.len() - start,
    {
        let end = index_of_char(&v, '}', start, v.len());
        let ghost before = out.deep_view();
        match timer_spec_at(&v, start, end) {
            Some(spec) => {
                out.push(spec);
                assert(out.deep_view() =~= before + seq![spec@]);
            },
            None => {
                assert(out.deep_view() =~= before + Seq::<Seq<char>>::empty());
            },
        }
        if end >= v.len() {
            assert(timer_specs_from(v@, 0) =~= out.deep_view());
            return out;
        }
        proof {
            let here = match timer_spec_in(v@, start as int, end as int) {
                Some(spec) => seq![spec],
                None => Seq::<Seq<char>>::empty(),
            };
            assert(before + (here + timer_specs_from(v@, end as int + 1)) =~= (before + here)
                + timer_specs_from(v@, end as int + 1));
        }
        start = end + 1;
    }
}

} // verus!
