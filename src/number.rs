//! Decimal integers written as text: an optional sign and at least one digit.
use vstd::prelude::*;

verus! {

pub open spec fn is_digit(c: char) -> bool {
    '0' <= c && c <= '9'
}

pub open spec fn all_digits(s: Seq<char>) -> bool {
    forall|i: int| 0 <= i < s.len() ==> is_digit(#[trigger] s[i])
}

/// The value of a run of decimal digits, most significant first.
pub open spec fn digits_value(s: Seq<char>) -> int
    decreases s.len(),
{
    if s.len() == 0 {
        0
    } else {
        10 * digits_value(s.drop_last()) + (s.last() as int - '0' as int)
    }
}

/// The value of `s` when it is a non-empty run of digits.
pub open spec fn magnitude(s: Seq<char>) -> Option<int> {
    if s.len() > 0 && all_digits(s) {
        Some(digits_value(s))
    } else {
        None
    }
}

/// The integer that `s` writes in decimal: a leading `+` is allowed, and a
/// leading `-` only where `signed` holds; at least one digit must follow, and
/// nothing else may stand in the text.
pub open spec fn decimal_value(s: Seq<char>, signed: bool) -> Option<int> {
    if s.len() > 0 && s[0] == '+' {
        magnitude(s.skip(1))
    } else if signed && s.len() > 0 && s[0] == '-' {
        match magnitude(s.skip(1)) {
            Some(v) => Some(-v),
            None => None,
        }
    } else {
        magnitude(s)
    }
}

/// `v` when it lies within `lo..=hi`.
pub open spec fn within(v: Option<int>, lo: int, hi: int) -> Option<int> {
    match v {
        Some(x) => if lo <= x && x <= hi {
            Some(x)
        } else {
            None
        },
        None => None,
    }
}

/// Values beyond every bound used here; a magnitude that reaches it is kept there.
const CAP: u64 = 0x1_0000_0000_0000;

/// Reads the digits of `s` from index `from` on, as a magnitude.
fn read_magnitude(s: &str, from: usize) -> (r: Option<u64>)
    requires
        from <= s@.len(),
    ensures
        match magnitude(s@.skip(from as int)) {
            Some(v) => v >= 0 && r == Some(if v < CAP { v as u64 } else { CAP }),
            None => r is None,
        },
{
    let n = s.unicode_len();
    if from == n {
        return None;
    }
    let ghost d = s@.skip(from as int);
    let mut acc: u64 = 0;
    let mut i: usize = from;
    assert(d.take(0) == Seq::<char>::empty());
    while i < n
        invariant
            n == s@.len(),
            from <= i <= n,
            d == s@.skip(from as int),
            all_digits(d.take(i - from)),
            digits_value(d.take(i - from)) >= 0,
            acc == if digits_value(d.take(i - from)) < CAP {
                digits_value(d.take(i - from))
            } else {
                CAP as int
            },
        decreases n - i,
    {
        let c = s.get_char(i);
        assert(d[i - from] == c);
        if c < '0' || c > '9' {
            assert(!all_digits(d));
            return None;
        }
        let ghost t = d.take(i + 1 - from);
        assert(t.drop_last() == d.take(i - from));
        assert(t.last() == c);
        let digit = (c as u32 - '0' as u32) as u64;
        if acc >= CAP {
            acc = CAP;
        } else {
            let next = acc * 10 + digit;
            acc = if next < CAP { next } else { CAP };
        }
        i = i + 1;
        assert(all_digits(t)) by {
            assert forall|k: int| 0 <= k < t.len() implies is_digit(#[trigger] t[k]) by {
                if k < t.len() - 1 {
                    assert(t[k] == d.take(i - 1 - from)[k]);
                }
            }
        }
    }
    assert(d.take(n - from) == d);
    Some(acc)
}

/// Reads `s` as a decimal integer within `lo..=hi`; a `-` sign is accepted
/// only where `lo` is negative.
fn parse_within(s: &str, lo: i64, hi: i64) -> (r: Option<i64>)
    requires
        -0x1_0000_0000 <= lo <= 0 <= hi <= 0x1_0000_0000,
    ensures
        match within(decimal_value(s@, lo < 0), lo as int, hi as int) {
            Some(v) => r == Some(v as i64),
            None => r is None,
        },
{
    let n = s.unicode_len();
    if n == 0 {
        return None;
    }
    let first = s.get_char(0);
    let negative = lo < 0 && first == '-';
    let skip: usize = if first == '+' || negative { 1 } else { 0 };
    assert(s@.skip(0) == s@);
    assert(s@[0] == first);
    match read_magnitude(s, skip) {
        None => None,
        Some(m) => {
            if m >= CAP {
                return None;
            }
            let v: i64 = if negative { -(m as i64) } else { m as i64 };
            if lo <= v && v <= hi {
                Some(v)
            } else {
                None
            }
        },
    }
}

/// Reads an unsigned 32-bit decimal integer.
pub fn parse_u32(s: &str) -> (r: Option<u32>)
    ensures
        match within(decimal_value(s@, false), 0, u32::MAX as int) {
            Some(v) => r == Some(v as u32),
            None => r is None,
        },
{
    match parse_within(s, 0, u32::MAX as i64) {
        Some(v) => Some(v as u32),
        None => None,
    }
}

/// Reads a signed 32-bit decimal integer.
pub fn parse_i32(s: &str) -> (r: Option<i32>)
    ensures
        match within(decimal_value(s@, true), i32::MIN as int, i32::MAX as int) {
            Some(v) => r == Some(v as i32),
            None => r is None,
        },
{
    match parse_within(s, i32::MIN as i64, i32::MAX as i64) {
        Some(v) => Some(v as i32),
        None => None,
    }
}

/// Reads a signed 16-bit decimal integer.
pub fn parse_i16(s: &str) -> (r: Option<i16>)
    ensures
        match within(decimal_value(s@, true), i16::MIN as int, i16::MAX as int) {
            Some(v) => r == Some(v as i16),
            None => r is None,
        },
{
    match parse_within(s, i16::MIN as i64, i16::MAX as i64) {
        Some(v) => Some(v as i16),
        None => None,
    }
}

} // verus!
