//! Reading numbers from text.

use vstd::prelude::*;
use crate::text::chars_of;

verus! {

/// The value of a decimal digit.
pub open spec fn digit_value(c: char) -> Option<nat> {
    if c == '0' {
        Some(0)
    } else if c == '1' {
        Some(1)
    } else if c == '2' {
        Some(2)
    } else if c == '3' {
        Some(3)
    } else if c == '4' {
        Some(4)
    } else if c == '5' {
        Some(5)
    } else if c == '6' {
        Some(6)
    } else if c == '7' {
        Some(7)
    } else if c == '8' {
        Some(8)
    } else if c == '9' {
        Some(9)
    } else {
        None
    }
}

/// The number that a non-empty run of decimal digits writes; none for the
/// empty text and for a text with any other character.
pub open spec fn digits_value(s: Seq<char>) -> Option<nat>
    decreases s.len(),
{
    if s.len() == 0 {
        None
    } else if s.len() == 1 {
        digit_value(s[0])
    } else {
        match (digits_value(s.drop_last()), digit_value(s.last())) {
            (Some(high), Some(low)) => Some(high * 10 + low),
            _ => None,
        }
    }
}

/// The text without a leading plus sign.
pub open spec fn without_plus(s: Seq<char>) -> Seq<char> {
    if s.len() > 0 && s[0] == '+' {
        s.drop_first()
    } else {
        s
    }
}

/// The number up to `max` that a text writes in decimal digits, with an
/// optional plus sign in front.
pub open spec fn unsigned_value(s: Seq<char>, max: nat) -> Option<nat> {
    match digits_value(without_plus(s)) {
        Some(v) => if v <= max {
            Some(v)
        } else {
            None
        },
        None => None,
    }
}

/// The number between `min` and `max` that a text writes in decimal digits,
/// with an optional sign in front.
pub open spec fn signed_value(s: Seq<char>, min: int, max: int) -> Option<int> {
    if s.len() > 0 && s[0] == '-' {
        match digits_value(s.drop_first()) {
            Some(v) => if -(v as int) >= min {
                Some(-(v as int))
            } else {
                None
            },
            None => None,
        }
    } else {
        match digits_value(without_plus(s)) {
            Some(v) => if v <= max {
                Some(v as int)
            } else {
                None
            },
            None => None,
        }
    }
}

fn digit_of_char(c: char) -> (r: Option<u64>)
    ensures
        match r {
            Some(d) => d < 10 && digit_value(c) == Some(d as nat),
            None => digit_value(c) is None,
        },
{
    if c == '0' {
        Some(0)
    } else if c == '1' {
        Some(1)
    } else if c == '2' {
        Some(2)
    } else if c == '3' {
        Some(3)
    } else if c == '4' {
        Some(4)
    } else if c == '5' {
        Some(5)
    } else if c == '6' {
        Some(6)
    } else if c == '7' {
        Some(7)
    } else if c == '8' {
        Some(8)
    } else if c == '9' {
        Some(9)
    } else {
        None
    }
}

/// A run of digits is worth at least as much as any run it starts with, and
/// every run it starts with is a run of digits too.
proof fn lemma_digits_prefix(s: Seq<char>, n: int)
    requires
        1 <= n <= s.len(),
        digits_value(s) is Some,
    ensures
        digits_value(s.take(n)) is Some,
        digits_value(s.take(n))->0 <= digits_value(s)->0,
    decreases s.len(),
{
    if n == s.len() {
        assert(s.take(n) =~= s);
    } else {
        assert(s.len() >= 2);
        lemma_digits_prefix(s.drop_last(), n);
        assert(s.drop_last().take(n) =~= s.take(n));
    }
}

/// The number that the digits `v[from..]` write, if it is no more than
/// `u64::MAX`.
fn digits_to_u64(v: &Vec<char>, from: usize) -> (r: Option<u64>)
    requires
        from <= v.len(),
    ensures
        r is Some == (digits_value(v@.skip(from as int)) matches Some(n) && n <= u64::MAX),
        r matches Some(n) ==> digits_value(v@.skip(from as int)) == Some(n as nat),
{
    let ghost digits = v@.skip(from as int);
    if from == v.len() {
        return None;
    }
    let mut acc: u64 = 0;
    let mut i: usize = from;
    while i < v.len()
        invariant
            from <= i <= v.len(),
            from < v.len(),
            digits == v@.skip(from as int),
            i > from ==> digits_value(digits.take(i - from)) == Some(acc as nat),
            i == from ==> acc == 0,
        decreases v.len() - i,
    {
        let ghost upto = digits.take(i - from + 1);
        assert(upto.drop_last() =~= digits.take(i - from));
        assert(upto.last() == v@[i as int]);
        match digit_of_char(v[i]) {
            Some(d) => {
                if acc > (u64::MAX - d) / 10 {
                    proof {
                        if digits_value(digits) is Some {
                            lemma_digits_prefix(digits, i - from + 1);
                        }
                    }
                    return None;
                }
                acc = acc * 10 + d;
            },
            None => {
                proof {
                    if digits_value(digits) is Some {
                        lemma_digits_prefix(digits, i - from + 1);
                    }
                }
                return None;
            },
        }
        i = i + 1;
    }
    assert(digits.take(i - from) =~= digits);
    Some(acc)
}

/// Reads a number up to `u64::MAX` written in decimal digits, with an
/// optional plus sign in front.
pub fn parse_u64(s: &str) -> (r: Option<u64>)
    ensures
        r is Some == unsigned_value(s@, u64::MAX as nat) is Some,
        r matches Some(n) ==> unsigned_value(s@, u64::MAX as nat) == Some(n as nat),
{
    let v = chars_of(s);
    let from: usize = if v.len() > 0 && v[0] == '+' {
        1
    } else {
        0
    };
    assert(v@.skip(from as int) =~= without_plus(s@));
    digits_to_u64(&v, from)
}

/// Reads a number up to `u32::MAX` written in decimal digits, with an
/// optional plus sign in front.
pub fn parse_u32(s: &str) -> (r: Option<u32>)
    ensures
        r is Some == unsigned_value(s@, u32::MAX as nat) is Some,
        r matches Some(n) ==> unsigned_value(s@, u32::MAX as nat) == Some(n as nat),
{
    match parse_u64(s) {
        Some(n) => if n <= u32::MAX as u64 {
            Some(n as u32)
        } else {
            None
        },
        None => None,
    }
}

/// Reads a number up to 255 written in decimal digits, with an optional
/// plus sign in front.
pub fn parse_u8(s: &str) -> (r: Option<u8>)
    ensures
        r is Some == unsigned_value(s@, 255) is Some,
        r matches Some(n) ==> unsigned_value(s@, 255) == Some(n as nat),
{
    match parse_u64(s) {
        Some(n) => if n <= 255 {
            Some(n as u8)
        } else {
            None
        },
        None => None,
    }
}

/// Reads a number in the range of `i64` written in decimal digits, with an
/// optional sign in front.
pub fn parse_i64(s: &str) -> (r: Option<i64>)
    ensures
        r is Some == signed_value(s@, i64::MIN as int, i64::MAX as int) is Some,
        r matches Some(n) ==> signed_value(s@, i64::MIN as int, i64::MAX as int) == Some(
            n as int,
        ),
{
    let v = chars_of(s);
    if v.len() > 0 && v[0] == '-' {
        assert(v@.skip(1) =~= s@.drop_first());
        match digits_to_u64(&v, 1) {
            Some(n) => if n <= i64::MAX as u64 {
                Some(-(n as i64))
            } else if n == i64::MAX as u64 + 1 {
                Some(i64::MIN)
            } else {
                None
            },
            None => None,
        }
    } else {
        let from: usize = if v.len() > 0 && v[0] == '+' {
            1
        } else {
            0
        };
        assert(v@.skip(from as int) =~= without_plus(s@));
        match digits_to_u64(&v, from) {
            Some(n) => if n <= i64::MAX as u64 {
                Some(n as i64)
            } else {
                None
            },
            None => None,
        }
    }
}

} // verus!
