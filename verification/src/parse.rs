//! Parsing of the text a sysfs sensor file holds: an optionally signed
//! decimal integer in raw device units, possibly followed by trailing
//! whitespace. Anything else is a failed read.

use vstd::prelude::*;

verus! {

/// ASCII whitespace a sensor file may end with: space, tab, line feed,
/// carriage return.
pub open spec fn is_ascii_ws(b: u8) -> bool {
    b == 32 || b == 9 || b == 10 || b == 13
}

/// ASCII decimal digit.
pub open spec fn is_ascii_digit(b: u8) -> bool {
    48 <= b <= 57
}

/// The text with its trailing whitespace removed.
pub open spec fn trim_end_ws(s: Seq<u8>) -> Seq<u8>
    decreases s.len(),
{
    if s.len() > 0 && is_ascii_ws(s.last()) {
        trim_end_ws(s.drop_last())
    } else {
        s
    }
}

/// Every byte is a decimal digit.
pub open spec fn all_ascii_digits(s: Seq<u8>) -> bool {
    forall|i: int| 0 <= i < s.len() ==> is_ascii_digit(#[trigger] s[i])
}

/// Numeric value of a digit string read in base ten.
pub open spec fn decimal_value(s: Seq<u8>) -> int
    decreases s.len(),
{
    if s.len() == 0 {
        0
    } else {
        decimal_value(s.drop_last()) * 10 + (s.last() - 48)
    }
}

/// What a raw sensor file parses to: after trimming trailing whitespace, the
/// text must be one or more digits, optionally preceded by a minus sign, and
/// its value must fit in `i64`; otherwise the read failed.
pub open spec fn spec_parse_reading(s: Seq<u8>) -> Option<i64> {
    let t = trim_end_ws(s);
    if t.len() > 0 && t[0] == 45 {
        let digits = t.drop_first();
        if digits.len() > 0 && all_ascii_digits(digits) && decimal_value(digits)
            <= 9223372036854775808 {
            Some((-decimal_value(digits)) as i64)
        } else {
            None
        }
    } else if t.len() > 0 && all_ascii_digits(t) && decimal_value(t) <= 9223372036854775807 {
        Some(decimal_value(t) as i64)
    } else {
        None
    }
}

/// A digit string's value is never negative.
proof fn lemma_decimal_value_nonneg(s: Seq<u8>)
    requires
        all_ascii_digits(s),
    ensures
        decimal_value(s) >= 0,
    decreases s.len(),
{
    if s.len() > 0 {
        assert(all_ascii_digits(s.drop_last()));
        lemma_decimal_value_nonneg(s.drop_last());
    }
}

/// A prefix of a digit string never exceeds the whole string's value.
proof fn lemma_decimal_value_prefix_le(s: Seq<u8>, n: int)
    requires
        all_ascii_digits(s),
        0 <= n <= s.len(),
    ensures
        decimal_value(s.subrange(0, n)) <= decimal_value(s),
    decreases s.len() - n,
{
    if n == s.len() {
        assert(s.subrange(0, n) =~= s);
    } else {
        let shorter = s.subrange(0, n);
        let longer = s.subrange(0, n + 1);
        assert(longer.drop_last() =~= shorter);
        assert(all_ascii_digits(shorter));
        lemma_decimal_value_nonneg(shorter);
        assert(longer.last() == s[n]);
        assert(decimal_value(longer) == decimal_value(shorter) * 10 + (s[n] - 48));
        lemma_decimal_value_prefix_le(s, n + 1);
    }
}

/// Byte-level check for the whitespace set.
fn is_ws_byte(b: u8) -> (r: bool)
    ensures
        r == is_ascii_ws(b),
{
    b == 32 || b == 9 || b == 10 || b == 13
}

/// Parse the text of a sensor file as an optionally signed decimal integer in
/// raw device units, ignoring trailing whitespace. Returns `None` exactly
/// when the text is not such a number or its value does not fit in `i64`.
#[verifier::loop_isolation(false)]
pub fn parse_reading(s: &[u8]) -> (parsed: Option<i64>)
    ensures
        parsed == spec_parse_reading(s@),
{
    let mut end: usize = s.len();
    proof {
        assert(s@.subrange(0, end as int) =~= s@);
    }
    while end > 0 && is_ws_byte(s[end - 1])
        invariant
            end <= s@.len(),
            trim_end_ws(s@) == trim_end_ws(s@.subrange(0, end as int)),
        decreases end,
    {
        proof {
            let t = s@.subrange(0, end as int);
            assert(t.last() == s@[end - 1]);
            assert(t.drop_last() =~= s@.subrange(0, end as int - 1));
        }
        end = end - 1;
    }
    let ghost t: Seq<u8> = s@.subrange(0, end as int);
    proof {
        if end > 0 {
            assert(t.last() == s@[end - 1]);
        }
        assert(trim_end_ws(t) == t);
        assert(trim_end_ws(s@) == t);
    }
    if end == 0 {
        return None;
    }
    let negative: bool = s[0] == 45;
    let start: usize = if negative {
        1
    } else {
        0
    };
    proof {
        assert(t[0] == s@[0]);
    }
    if start >= end {
        proof {
            assert(t.drop_first() =~= s@.subrange(1, end as int));
        }
        return None;
    }
    let ghost digits: Seq<u8> = s@.subrange(start as int, end as int);
    proof {
        if negative {
            assert(digits =~= t.drop_first());
        } else {
            assert(digits =~= t);
        }
    }
    let bound: u128 = if negative {
        9223372036854775808
    } else {
        9223372036854775807
    };
    let mut acc: u128 = 0;
    let mut i: usize = start;
    while i < end
        invariant
            start <= i <= end <= s@.len(),
            start < end,
            digits == s@.subrange(start as int, end as int),
            all_ascii_digits(s@.subrange(start as int, i as int)),
            acc == decimal_value(s@.subrange(start as int, i as int)),
            acc <= bound,
        decreases end - i,
    {
        let b: u8 = s[i];
        if b < 48 || b > 57 {
            proof {
                assert(digits[i - start] == s@[i as int]);
                assert(!all_ascii_digits(digits));
            }
            return None;
        }
        let d: u128 = (b - 48) as u128;
        let next: u128 = acc * 10 + d;
        proof {
            let prefix = s@.subrange(start as int, i as int);
            let extended = s@.subrange(start as int, i as int + 1);
            assert(extended.drop_last() =~= prefix);
            assert(extended.last() == s@[i as int]);
            assert(decimal_value(extended) == decimal_value(prefix) * 10 + (s@[i as int] - 48));
            assert(forall|j: int|
                0 <= j < extended.len() ==> is_ascii_digit(#[trigger] extended[j])) by {
                assert(forall|j: int| 0 <= j < prefix.len() ==> extended[j] == prefix[j]);
            }
        }
        if next > bound {
            proof {
                if all_ascii_digits(digits) {
                    lemma_decimal_value_prefix_le(digits, i + 1 - start);
                    assert(digits.subrange(0, i + 1 - start) =~= s@.subrange(
                        start as int,
                        i as int + 1,
                    ));
                }
            }
            return None;
        }
        acc = next;
        i = i + 1;
    }
    proof {
        assert(digits =~= s@.subrange(start as int, i as int));
    }
    if negative {
        if acc == 9223372036854775808 {
            Some(i64::MIN)
        } else {
            let magnitude: i64 = acc as i64;
            Some(-magnitude)
        }
    } else {
        Some(acc as i64)
    }
}

} // verus!
