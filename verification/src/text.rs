//! Text helpers shared by the filter, search and parsing code.
//!
//! Strings are modelled by their view, a `Seq<char>`. Three std string
//! operations that vstd leaves unspecified, lowercasing and the push and pop
//! of a character, are reached through the trusted wrappers at the top of
//! this file; everything else is verified.

use vstd::prelude::*;
use vstd::string::*;

verus! {

/// `needle` occurs in `hay` as a contiguous run of characters.
pub open spec fn is_infix(needle: Seq<char>, hay: Seq<char>) -> bool {
    exists|i: int|
        0 <= i <= hay.len() - needle.len() && #[trigger] hay.subrange(i, i + needle.len())
            == needle
}

/// The lowercase form of a text, as `str::to_lowercase` computes it.
pub uninterp spec fn lowercase_of(s: Seq<char>) -> Seq<char>;

/// Trusted: `str::to_lowercase`. Its result is a function of the text alone
/// and is named `lowercase_of`; nothing else is claimed of it.
#[verifier::external_body]
pub(crate) fn to_lowercase(s: &str) -> (r: String)
    ensures
        r@ == lowercase_of(s@),
{
    s.to_lowercase()
}

/// Trusted: `String::push`, which appends one character.
#[verifier::external_body]
pub(crate) fn string_push(s: &mut String, c: char)
    ensures
        final(s)@ == old(s)@.push(c),
{
    s.push(c)
}

/// Trusted: `String::pop`, which removes the last character and returns it,
/// or returns `None` for the empty string.
#[verifier::external_body]
pub(crate) fn string_pop(s: &mut String) -> (r: Option<char>)
    ensures
        old(s)@.len() == 0 ==> r is None && final(s)@ == old(s)@,
        old(s)@.len() > 0 ==> r == Some(old(s)@.last()) && final(s)@ == old(s)@.drop_last(),
{
    s.pop()
}

/// The characters of a string, in order.
pub fn chars_of(s: &str) -> (v: Vec<char>)
    ensures
        v@ == s@,
{
    let mut v: Vec<char> = Vec::new();
    for c in it: s.chars()
        invariant
            v@ == it.seq().take(it.index()),
    {
        v.push(c);
    }
    v
}

/// The string made of `v[from..to]`.
pub fn string_of(v: &Vec<char>, from: usize, to: usize) -> (s: String)
    requires
        from <= to <= v.len(),
    ensures
        s@ == v@.subrange(from as int, to as int),
{
    let mut s = String::new();
    let mut i: usize = from;
    while i < to
        invariant
            from <= i <= to <= v.len(),
            s@ == v@.subrange(from as int, i as int),
        decreases to - i,
    {
        string_push(&mut s, v[i]);
        i = i + 1;
    }
    s
}

/// `needle` stands in `hay` at position `i`.
pub open spec fn match_at(hay: Seq<char>, needle: Seq<char>, i: int) -> bool {
    0 <= i && i + needle.len() <= hay.len() && hay.subrange(i, i + needle.len()) == needle
}

/// The first position at or after `from` at which `needle` stands in `hay`;
/// the length of `hay` where it stands nowhere from there on.
pub open spec fn find_match(hay: Seq<char>, needle: Seq<char>, from: int) -> int
    decreases hay.len() - from + 1,
{
    if from < 0 || from + needle.len() > hay.len() {
        hay.len() as int
    } else if match_at(hay, needle, from) {
        from
    } else {
        find_match(hay, needle, from + 1)
    }
}

/// What `find_match` finds: a place at which the needle stands, before
/// which it stands nowhere from `from` on; or no place at all.
pub proof fn lemma_find_match(hay: Seq<char>, needle: Seq<char>, from: int)
    requires
        0 <= from <= hay.len(),
        needle.len() > 0,
    ensures
        from <= find_match(hay, needle, from) <= hay.len(),
        find_match(hay, needle, from) < hay.len() ==> match_at(
            hay,
            needle,
            find_match(hay, needle, from),
        ),
        forall|i: int|
            from <= i < find_match(hay, needle, from) ==> !match_at(hay, needle, i),
    decreases hay.len() - from,
{
    if from + needle.len() <= hay.len() && !match_at(hay, needle, from) {
        lemma_find_match(hay, needle, from + 1);
    }
}

fn stands_at(hay: &Vec<char>, needle: &Vec<char>, i: usize) -> (r: bool)
    requires
        i + needle.len() <= hay.len(),
    ensures
        r == match_at(hay@, needle@, i as int),
{
    let mut k: usize = 0;
    while k < needle.len()
        invariant
            k <= needle.len(),
            i + needle.len() <= hay.len(),
            forall|j: int| 0 <= j < k ==> hay@[i + j] == needle@[j],
        decreases needle.len() - k,
    {
        if hay[i + k] != needle[k] {
            assert(hay@.subrange(i as int, i + needle.len())[k as int] != needle@[k as int]);
            return false;
        }
        k = k + 1;
    }
    assert(hay@.subrange(i as int, i + needle.len()) =~= needle@);
    true
}

/// The first position at or after `from` at which `needle` stands in `hay`,
/// see `find_match`.
pub fn first_match(hay: &Vec<char>, needle: &Vec<char>, from: usize) -> (r: usize)
    requires
        from <= hay.len(),
        needle.len() > 0,
    ensures
        r == find_match(hay@, needle@, from as int),
        from <= r <= hay.len(),
        r < hay.len() ==> r + needle.len() <= hay.len(),
{
    let mut i: usize = from;
    while i < hay.len() && needle.len() <= hay.len() - i
        invariant
            from <= i <= hay.len(),
            needle.len() > 0,
            find_match(hay@, needle@, from as int) == find_match(hay@, needle@, i as int),
        decreases hay.len() - i,
    {
        if stands_at(hay, needle, i) {
            return i;
        }
        i = i + 1;
    }
    hay.len()
}

/// Whether `needle` occurs in `hay`, as `str::contains` with a string
/// pattern tells it. The empty text occurs in every text.
pub fn str_contains(hay: &str, needle: &str) -> (r: bool)
    ensures
        r == is_infix(needle@, hay@),
{
    let text = chars_of(hay);
    let pattern = chars_of(needle);
    if pattern.len() == 0 {
        assert(text@.subrange(0, 0) =~= pattern@);
        return true;
    }
    let at = first_match(&text, &pattern, 0);
    proof {
        lemma_find_match(text@, pattern@, 0);
        if at < text.len() {
            assert(text@.subrange(at as int, at + pattern@.len()) == pattern@);
        } else {
            assert forall|i: int| 0 <= i <= text@.len() - pattern@.len() implies #[trigger] text@.subrange(
                i,
                i + pattern@.len(),
            ) != pattern@ by {
                assert(!match_at(text@, pattern@, i));
            }
        }
    }
    at < text.len()
}

/// Whether two string slices hold the same characters.
pub fn str_eq(a: &str, b: &str) -> (r: bool)
    ensures
        r == (a@ == b@),
{
    let x = String::from_str(a);
    let y = String::from_str(b);
    x == y
}

/// The indices below `n` at which `pred` holds, in increasing order.
pub open spec fn indices_where(n: nat, pred: spec_fn(int) -> bool) -> Seq<usize>
    decreases n,
{
    if n == 0 {
        Seq::empty()
    } else {
        let rest = indices_where((n - 1) as nat, pred);
        if pred(n - 1) {
            rest.push((n - 1) as usize)
        } else {
            rest
        }
    }
}

/// `indices_where(n, pred)` lists exactly the indices below `n` that satisfy
/// `pred`, each once, in increasing order.
pub proof fn lemma_indices_where(n: nat, pred: spec_fn(int) -> bool)
    requires
        n <= usize::MAX,
    ensures
        indices_where(n, pred).len() <= n,
        forall|k: int|
            0 <= k < indices_where(n, pred).len() ==> 0 <= (#[trigger] indices_where(n, pred)[k])
                < n && pred(indices_where(n, pred)[k] as int),
        forall|j: int, k: int|
            0 <= j < k < indices_where(n, pred).len() ==> (#[trigger] indices_where(n, pred)[j])
                < (#[trigger] indices_where(n, pred)[k]),
        forall|i: int|
            0 <= i < n && #[trigger] pred(i) ==> exists|k: int|
                0 <= k < indices_where(n, pred).len() && #[trigger] indices_where(n, pred)[k] == i,
    decreases n,
{
    if n > 0 {
        let m = (n - 1) as nat;
        lemma_indices_where(m, pred);
        let rest = indices_where(m, pred);
        let all = indices_where(n, pred);
        assert forall|i: int| 0 <= i < n && #[trigger] pred(i) implies exists|k: int|
            0 <= k < all.len() && #[trigger] all[k] == i by {
            if i < m {
                let k = choose|k: int| 0 <= k < rest.len() && #[trigger] rest[k] == i;
                assert(all[k] == i);
            } else {
                assert(all[all.len() - 1] == i);
            }
        }
    }
}

/// The character that writes the decimal digit `d`.
pub open spec fn digit_char(d: int) -> char {
    if d == 0 {
        '0'
    } else if d == 1 {
        '1'
    } else if d == 2 {
        '2'
    } else if d == 3 {
        '3'
    } else if d == 4 {
        '4'
    } else if d == 5 {
        '5'
    } else if d == 6 {
        '6'
    } else if d == 7 {
        '7'
    } else if d == 8 {
        '8'
    } else {
        '9'
    }
}

/// The decimal numeral of `n`, without sign or leading zeros.
pub open spec fn decimal_text(n: nat) -> Seq<char>
    decreases n,
{
    if n < 10 {
        seq![digit_char(n as int)]
    } else {
        decimal_text(n / 10).push(digit_char((n % 10) as int))
    }
}

fn digit_of(d: u64) -> (c: char)
    requires
        d < 10,
    ensures
        c == digit_char(d as int),
{
    if d == 0 {
        '0'
    } else if d == 1 {
        '1'
    } else if d == 2 {
        '2'
    } else if d == 3 {
        '3'
    } else if d == 4 {
        '4'
    } else if d == 5 {
        '5'
    } else if d == 6 {
        '6'
    } else if d == 7 {
        '7'
    } else if d == 8 {
        '8'
    } else {
        '9'
    }
}

/// Appends the decimal numeral of `n` to `out`.
pub fn push_decimal(out: &mut String, n: u64)
    ensures
        final(out)@ == old(out)@ + decimal_text(n as nat),
    decreases n,
{
    if n >= 10 {
        push_decimal(out, n / 10);
    }
    string_push(out, digit_of(n % 10));
    proof {
        if n >= 10 {
            assert(old(out)@ + decimal_text((n / 10) as nat).push(digit_char((n % 10) as int))
                =~= (old(out)@ + decimal_text((n / 10) as nat)).push(digit_char((n % 10) as int)));
        } else {
            assert(old(out)@ + seq![digit_char(n as int)] =~= old(out)@.push(digit_char(n as int)));
        }
    }
}

/// The decimal numeral of `n`.
pub fn decimal_string(n: u64) -> (s: String)
    ensures
        s@ == decimal_text(n as nat),
{
    let mut s = String::new();
    push_decimal(&mut s, n);
    assert(Seq::<char>::empty() + decimal_text(n as nat) =~= decimal_text(n as nat));
    s
}

} // verus!
