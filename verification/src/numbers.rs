//! Decimal integer parsing, as `str::parse` does it for integer types.

use vstd::prelude::*;

use crate::text::{chars_of, is_ascii_digit, trim, trim_chars};

verus! {

/// The value of a string of decimal digits.
pub open spec fn digits_value(d: Seq<char>) -> nat
    decreases d.len(),
{
    if d.len() == 0 {
        0
    } else {
        digits_value(d.drop_last()) * 10 + ((d.last() as u32) - 48) as nat
    }
}

/// `d` is one or more ASCII digits.
pub open spec fn all_digits(d: Seq<char>) -> bool {
    d.len() > 0 && forall|i: int| 0 <= i < d.len() ==> is_ascii_digit(#[trigger] d[i])
}

/// `str::parse::<u16>`: an optional `+`, then digits, at most 65535.
pub open spec fn parsed_u16(s: Seq<char>) -> Option<u16> {
    let body = if s.len() > 0 && s[0] == '+' {
        s.drop_first()
    } else {
        s
    };
    if all_digits(body) && digits_value(body) <= 65535 {
        Some(digits_value(body) as u16)
    } else {
        None
    }
}

/// `str::parse::<i64>`: an optional `+` or `-`, then digits, within range.
pub open spec fn parsed_i64(s: Seq<char>) -> Option<i64> {
    let neg = s.len() > 0 && s[0] == '-';
    let body = if s.len() > 0 && (s[0] == '+' || s[0] == '-') {
        s.drop_first()
    } else {
        s
    };
    if !all_digits(body) {
        None
    } else if neg {
        if digits_value(body) <= 9223372036854775808 {
            Some((-(digits_value(body) as int)) as i64)
        } else {
            None
        }
    } else if digits_value(body) <= 9223372036854775807 {
        Some(digits_value(body) as i64)
    } else {
        None
    }
}

pub proof fn lemma_digits_value_prefix(d: Seq<char>, i: int)
    requires
        0 <= i <= d.len(),
        forall|k: int| 0 <= k < d.len() ==> is_ascii_digit(#[trigger] d[k]),
    ensures
        digits_value(d.subrange(0, i)) <= digits_value(d),
    decreases d.len() - i,
{
    if i < d.len() {
        lemma_digits_value_prefix(d, i + 1);
        assert(d.subrange(0, i + 1).drop_last() =~= d.subrange(0, i));
    } else {
        assert(d.subrange(0, i) =~= d);
    }
}

/// The value of the digits `d[from..]`, when they are all digits and the
/// value is at most `limit`.
fn digits_upto(d: &[char], from: usize, limit: u64) -> (r: Option<u64>)
    requires
        from <= d@.len(),
        limit >= 9,
    ensures
        ({
            let body = d@.subrange(from as int, d@.len() as int);
            match r {
                Some(v) => all_digits(body) && digits_value(body) <= limit && v == digits_value(body),
                None => !(all_digits(body) && digits_value(body) <= limit),
            }
        }),
{
    let ghost body = d@.subrange(from as int, d@.len() as int);
    if from == d.len() {
        return None;
    }
    let mut acc: u64 = 0;
    let mut i = from;
    while i < d.len()
        invariant
            from <= i <= d@.len(),
            body == d@.subrange(from as int, d@.len() as int),
            forall|k: int| from <= k < i ==> is_ascii_digit(#[trigger] d@[k]),
            acc == digits_value(d@.subrange(from as int, i as int)),
            acc <= limit,
            limit >= 9,
        decreases d.len() - i,
    {
        let c = d[i];
        if !('0' <= c && c <= '9') {
            assert(!is_ascii_digit(body[i - from]));
            return None;
        }
        let dv = (c as u32 - 48) as u64;
        assert(d@.subrange(from as int, i + 1).drop_last() =~= d@.subrange(from as int, i as int));
        if acc > (limit - dv) / 10 {
            proof {
                assert(acc * 10 + dv > limit) by (nonlinear_arith)
                    requires
                        acc > (limit - dv) / 10,
                        dv <= 9,
                        limit >= 9,
                ;
                if all_digits(body) {
                    lemma_digits_value_prefix(body, i + 1 - from);
                    assert(body.subrange(0, i + 1 - from) =~= d@.subrange(from as int, i + 1));
                }
            }
            return None;
        }
        acc = acc * 10 + dv;
        i = i + 1;
    }
    assert(d@.subrange(from as int, i as int) =~= body);
    Some(acc)
}


/// `s.parse::<u16>().ok()`.
pub fn parse_u16(s: &str) -> (r: Option<u16>)
    ensures
        r == parsed_u16(s@),
{
    let d = chars_of(s);
    let from: usize = if d.len() > 0 && d[0] == '+' {
        1
    } else {
        0
    };
    proof {
        assert(d@.subrange(from as int, d@.len() as int) =~= (if d@.len() > 0 && d@[0] == '+' {
            d@.drop_first()
        } else {
            d@
        }));
    }
    match digits_upto(d.as_slice(), from, 65535) {
        Some(v) => Some(v as u16),
        None => None,
    }
}

/// `s.parse::<i64>().ok()`.
pub fn parse_i64(s: &str) -> (r: Option<i64>)
    ensures
        r == parsed_i64(s@),
{
    let d = chars_of(s);
    let neg = d.len() > 0 && d[0] == '-';
    let from: usize = if d.len() > 0 && (d[0] == '+' || d[0] == '-') {
        1
    } else {
        0
    };
    proof {
        assert(d@.subrange(from as int, d@.len() as int) =~= (if d@.len() > 0 && (d@[0] == '+'
            || d@[0] == '-') {
            d@.drop_first()
        } else {
            d@
        }));
    }
    if neg {
        match digits_upto(d.as_slice(), from, 9223372036854775808) {
            Some(v) => {
                if v == 9223372036854775808 {
                    Some(i64::MIN)
                } else {
                    Some(-(v as i64))
                }
            },
            None => None,
        }
    } else {
        match digits_upto(d.as_slice(), from, 9223372036854775807) {
            Some(v) => Some(v as i64),
            None => None,
        }
    }
}

/// `s.trim().parse::<i64>().ok()`.
pub fn parse_trimmed_i64(s: &str) -> (r: Option<i64>)
    ensures
        r == parsed_i64(trim(s@)),
{
    let t = crate::text::trim_string(s);
    parse_i64(t.as_str())
}

/// The id in a route parameter: its number, or 0 when it is not one.
pub fn route_id(param: Option<&str>) -> (id: i64)
    ensures
        match param {
            Some(p) => match parsed_i64(p@) {
                Some(n) => id == n,
                None => id == 0,
            },
            None => id == 0,
        },
{
    match param {
        Some(p) => match parse_i64(p) {
            Some(n) => n,
            None => 0,
        },
        None => 0,
    }
}

/// The lifetime in hours of a new file link, from the form's number and its
/// unit (hours, or days of 24 hours). `None` (no expiry) when the number
/// does not parse.
pub fn share_link_hours(value: &str, in_days: bool) -> (r: Option<i64>)
    requires
        in_days ==> (parsed_i64(trim(value@)) matches Some(n) ==> i64::MIN <= n * 24
            <= i64::MAX),
    ensures
        match parsed_i64(trim(value@)) {
            Some(n) => r == Some((if in_days {
                n * 24
            } else {
                n as int
            }) as i64),
            None => r is None,
        },
{
    match parse_trimmed_i64(value) {
        Some(n) => if in_days {
            Some(n * 24)
        } else {
            Some(n)
        },
        None => None,
    }
}

} // verus!

verus! {

proof fn lemma_nat_decimal_digits(m: nat)
    ensures
        all_digits(crate::text::nat_decimal(m)),
        digits_value(crate::text::nat_decimal(m)) == m,
    decreases m,
{
    let s = crate::text::nat_decimal(m);
    if m < 10 {
        assert(s.len() == 1);
        assert((crate::text::digit_char(m) as u32) == m + 48);
        assert(s.drop_last() =~= Seq::<char>::empty());
        assert(digits_value(s.drop_last()) == 0);
        assert(s.last() == crate::text::digit_char(m));
    } else {
        lemma_nat_decimal_digits(m / 10);
        let d = crate::text::digit_char(m % 10);
        assert((d as u32) == m % 10 + 48);
        assert(s.drop_last() =~= crate::text::nat_decimal(m / 10));
        assert(s.last() == d);
        assert(digits_value(s) == digits_value(s.drop_last()) * 10 + ((s.last() as u32) - 48) as nat);
        assert((m / 10) * 10 + m % 10 == m);
        assert forall|i: int| 0 <= i < s.len() implies is_ascii_digit(#[trigger] s[i]) by {
            if i < s.len() - 1 {
                assert(s[i] == crate::text::nat_decimal(m / 10)[i]);
            }
        }
    }
}

/// Parsing what `i64_to_string` writes gives the number back.
pub proof fn lemma_parse_decimal_roundtrip(n: i64)
    ensures
        parsed_i64(crate::text::int_decimal(n as int)) == Some(n),
{
    let s = crate::text::int_decimal(n as int);
    if n < 0 {
        let m = (-(n as int)) as nat;
        lemma_nat_decimal_digits(m);
        assert(s.drop_first() =~= crate::text::nat_decimal(m));
        assert(s[0] == '-');
    } else {
        let m = n as nat;
        lemma_nat_decimal_digits(m);
        assert(is_ascii_digit(s[0]));
    }
}

} // verus!
