//! The condition catalog: named numeric ranges and categorical value lists
//! per searchable attribute, plus the lookup of a range by its raw
//! identifier string.

use vstd::prelude::*;

verus! {

/// One named numeric bucket: values `v` with `min <= v < max`, where a
/// bound of `-1` means "unbounded on that side".
#[derive(Clone, Copy, Debug, PartialEq, Eq, Structural)]
pub struct Range {
    pub id: i64,
    pub min: i64,
    pub max: i64,
}

/// An ordered sequence of range buckets for one attribute.
pub struct RangeCondition {
    pub prefix: String,
    pub suffix: String,
    pub ranges: Vec<Range>,
}

/// The enumerable categorical values accepted for one attribute.
pub struct ListCondition {
    pub list: Vec<String>,
}

/// The condition catalog for the furniture catalog.
pub struct ChairSearchCondition {
    pub width: RangeCondition,
    pub height: RangeCondition,
    pub depth: RangeCondition,
    pub price: RangeCondition,
    pub color: ListCondition,
    pub feature: ListCondition,
    pub kind: ListCondition,
}

/// The condition catalog for the rental-listing catalog.
pub struct EstateSearchCondition {
    pub door_width: RangeCondition,
    pub door_height: RangeCondition,
    pub rent: RangeCondition,
    pub feature: ListCondition,
}

/// A range condition is well formed when its identifiers are the contiguous
/// zero-based indices of the sequence.
pub open spec fn wf_range_condition(ranges: Seq<Range>) -> bool {
    forall|i: int| 0 <= i < ranges.len() ==> (#[trigger] ranges[i]).id == i
}

/// Checks the catalog invariant of one range condition: identifiers are
/// the contiguous zero-based indices of the sequence.
pub fn check_range_condition(cond: &RangeCondition) -> (r: bool)
    ensures
        r == wf_range_condition(cond.ranges@),
{
    let mut i: usize = 0;
    while i < cond.ranges.len()
        invariant
            0 <= i <= cond.ranges.len(),
            forall|j: int| 0 <= j < i ==> (#[trigger] cond.ranges@[j]).id == j,
        decreases cond.ranges.len() - i,
    {
        let id: i64 = cond.ranges[i].id;
        if id < 0 || id as u64 != i as u64 {
            return false;
        }
        i = i + 1;
    }
    true
}

pub open spec fn is_digit(c: char) -> bool {
    '0' as u32 <= c as u32 <= '9' as u32
}

pub open spec fn digit_val(c: char) -> int {
    c as u32 - '0' as u32
}

pub open spec fn all_digits(s: Seq<char>) -> bool {
    forall|i: int| 0 <= i < s.len() ==> is_digit(#[trigger] s[i])
}

/// The numeric value of a sequence of decimal digits, most significant first.
pub open spec fn digits_value(s: Seq<char>) -> int
    decreases s.len(),
{
    if s.len() == 0 {
        0
    } else {
        digits_value(s.drop_last()) * 10 + digit_val(s.last())
    }
}

/// What `parse` of a signed 64-bit integer accepts: an optional sign
/// followed by at least one decimal digit, whose value fits the type.
pub open spec fn spec_parse_i64(s: Seq<char>) -> Option<i64> {
    let negative = s.len() > 0 && s[0] == '-';
    let digits = if s.len() > 0 && (s[0] == '-' || s[0] == '+') {
        s.drop_first()
    } else {
        s
    };
    if digits.len() == 0 || !all_digits(digits) {
        None
    } else if negative {
        if digits_value(digits) <= 0x8000_0000_0000_0000 {
            Some((-digits_value(digits)) as i64)
        } else {
            None
        }
    } else {
        if digits_value(digits) <= i64::MAX {
            Some(digits_value(digits) as i64)
        } else {
            None
        }
    }
}

proof fn lemma_digits_value_nonneg(s: Seq<char>)
    requires
        all_digits(s),
    ensures
        digits_value(s) >= 0,
    decreases s.len(),
{
    if s.len() > 0 {
        lemma_digits_value_nonneg(s.drop_last());
    }
}

/// Appending further digits can only grow the value.
proof fn lemma_digits_value_extend(s: Seq<char>, t: Seq<char>)
    requires
        all_digits(s),
        all_digits(t),
    ensures
        digits_value(s + t) >= digits_value(s),
    decreases t.len(),
{
    if t.len() == 0 {
        assert(s + t =~= s);
    } else {
        assert((s + t).drop_last() =~= s + t.drop_last());
        assert(all_digits(t.drop_last()));
        lemma_digits_value_extend(s, t.drop_last());
        lemma_digits_value_nonneg(s);
        assert(digits_value(s + t) == digits_value(s + t.drop_last()) * 10 + digit_val((s
            + t).last()));
    }
}

/// Parses a signed 64-bit integer exactly as the standard decimal parse
/// does: optional sign, then one or more digits, rejecting any other
/// character and any value out of the type's span.
pub fn parse_i64(s: &str) -> (r: Option<i64>)
    ensures
        r == spec_parse_i64(s@),
{
    let n: usize = s.unicode_len();
    if n == 0 {
        return None;
    }
    let first: char = s.get_char(0);
    let negative: bool = first == '-';
    let start: usize = if first == '-' || first == '+' {
        1
    } else {
        0
    };
    if start == n {
        return None;
    }
    let ghost digits: Seq<char> = s@.subrange(start as int, n as int);
    proof {
        if start == 1 {
            assert(digits =~= s@.drop_first());
        } else {
            assert(digits =~= s@);
        }
    }
    let limit: u64 = if negative {
        0x8000_0000_0000_0000
    } else {
        0x7fff_ffff_ffff_ffff
    };
    let mut acc: u64 = 0;
    let mut i: usize = start;
    while i < n
        invariant
            start <= i <= n,
            n == s@.len(),
            start == 0 || start == 1,
            start == 1 <==> (s@.len() > 0 && (s@[0] == '-' || s@[0] == '+')),
            digits == s@.subrange(start as int, n as int),
            digits == (if s@.len() > 0 && (s@[0] == '-' || s@[0] == '+') {
                s@.drop_first()
            } else {
                s@
            }),
            negative == (s@[0] == '-'),
            limit == if negative {
                0x8000_0000_0000_0000u64
            } else {
                0x7fff_ffff_ffff_ffffu64
            },
            all_digits(s@.subrange(start as int, i as int)),
            acc == digits_value(s@.subrange(start as int, i as int)),
            acc <= limit,
        decreases n - i,
    {
        let c: char = s.get_char(i);
        let cu: u32 = c as u32;
        if !('0' as u32 <= cu && cu <= '9' as u32) {
            proof {
                assert(digits[i - start] == s@[i as int]);
                assert(!all_digits(digits));
            }
            return None;
        }
        let d: u64 = (cu - '0' as u32) as u64;
        let ghost prefix: Seq<char> = s@.subrange(start as int, i as int);
        let ghost prefix1: Seq<char> = s@.subrange(start as int, i as int + 1);
        proof {
            assert(prefix1.drop_last() =~= prefix);
            assert(prefix1.last() == s@[i as int]);
            assert(digits_value(prefix1) == digits_value(prefix) * 10 + digit_val(s@[i as int]));
            assert(digit_val(s@[i as int]) == d);
        }
        let next: u64 = match acc.checked_mul(10) {
            Some(m) => match m.checked_add(d) {
                Some(a) => a,
                None => {
                    proof {
                        assert(digits_value(prefix1) > limit);
                        lemma_parse_overflow(s@, start as int, i as int, n as int, limit as int);
                    }
                    return None;
                },
            },
            None => {
                proof {
                    assert(digits_value(prefix1) > limit);
                    lemma_parse_overflow(s@, start as int, i as int, n as int, limit as int);
                }
                return None;
            },
        };
        if next > limit {
            proof {
                assert(digits_value(prefix1) > limit);
                lemma_parse_overflow(s@, start as int, i as int, n as int, limit as int);
            }
            return None;
        }
        assert(all_digits(s@.subrange(start as int, i as int + 1)));
        acc = next;
        i = i + 1;
    }
    assert(s@.subrange(start as int, n as int) =~= digits);
    if negative {
        if acc == 0x8000_0000_0000_0000 {
            Some(i64::MIN)
        } else {
            Some(-(acc as i64))
        }
    } else {
        Some(acc as i64)
    }
}

/// If the digits read so far already exceed the limit once extended by one
/// more digit, the whole digit string's value exceeds the limit, so the
/// parse rejects the input whatever follows.
proof fn lemma_parse_overflow(s: Seq<char>, start: int, i: int, n: int, limit: int)
    requires
        0 <= start <= i < n == s.len(),
        all_digits(s.subrange(start, i)),
        is_digit(s[i]),
        digits_value(s.subrange(start, i + 1)) > limit,
        limit >= 0,
    ensures
        !(all_digits(s.subrange(start, n)) && digits_value(s.subrange(start, n)) <= limit),
{
    if all_digits(s.subrange(start, n)) {
        let p = s.subrange(start, i + 1);
        let t = s.subrange(i + 1, n);
        assert(s.subrange(start, n) =~= p + t);
        assert(all_digits(p));
        assert(all_digits(t)) by {
            assert(forall|j: int|
                0 <= j < t.len() ==> t[j] == s.subrange(start, n)[i + 1 - start + j]);
        }
        lemma_digits_value_extend(p, t);
    }
}

/// Spec of `get_range`: parse the identifier, then take it as an index
/// into the range sequence, rejecting negatives and overruns.
pub open spec fn spec_get_range(ranges: Seq<Range>, range_id: Seq<char>) -> Option<Range> {
    match spec_parse_i64(range_id) {
        None => None,
        Some(v) => if v < 0 || ranges.len() <= v {
            None
        } else {
            Some(ranges[v as int])
        },
    }
}

/// Looks a range bucket up by its raw identifier string.  Fails (returns
/// `None`) exactly when the identifier does not parse as an integer or
/// falls outside `[0, count)`; an out-of-bounds identifier is rejected,
/// never clamped.
pub fn get_range(cond: &RangeCondition, range_id: &str) -> (r: Option<Range>)
    ensures
        r == spec_get_range(cond.ranges@, range_id@),
{
    match parse_i64(range_id) {
        None => None,
        Some(v) => {
            if v < 0 || cond.ranges.len() as u64 <= v as u64 {
                None
            } else {
                Some(cond.ranges[v as usize])
            }
        },
    }
}

} // verus!
