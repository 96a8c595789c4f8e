//! Decimal parsing for the numeric form fields: an exact model of reading an
//! optionally signed decimal integer, rejecting anything malformed or out of
//! range, and the fall-back-to-zero reading the forms use.

use vstd::prelude::*;

verus! {

/// Whether `c` is an ASCII decimal digit.
pub open spec fn is_dec_digit(c: char) -> bool {
    ('0' as u32) <= (c as u32) && (c as u32) <= ('9' as u32)
}

/// The numeric value of a decimal digit.
pub open spec fn digit_val(c: char) -> int {
    c as u32 - '0' as u32
}

/// Whether every character of `s` is a decimal digit.
pub open spec fn all_digits(s: Seq<char>) -> bool {
    forall|i: int| 0 <= i < s.len() ==> is_dec_digit(#[trigger] s[i])
}

/// The value of a digit string, most significant digit first.
pub open spec fn digits_val(s: Seq<char>) -> int
    decreases s.len(),
{
    if s.len() == 0 {
        0
    } else {
        digits_val(s.drop_last()) * 10 + digit_val(s.last())
    }
}

/// The digit part of an optionally signed decimal string: everything after a
/// leading `'+'` or `'-'`, or the whole string if there is no sign.
pub open spec fn digits_part(s: Seq<char>) -> Seq<char> {
    if s.len() > 0 && (s[0] == '-' || s[0] == '+') {
        s.drop_first()
    } else {
        s
    }
}

/// Whether the string is negated by a leading `'-'`.
pub open spec fn is_negated(s: Seq<char>) -> bool {
    s.len() > 0 && s[0] == '-'
}

/// The signed value of a well-formed decimal string.
pub open spec fn signed_val(s: Seq<char>) -> int {
    if is_negated(s) {
        -digits_val(digits_part(s))
    } else {
        digits_val(digits_part(s))
    }
}

/// What parsing `s` as a signed decimal integer yields: the signed value if
/// the digit part is non-empty, all digits, and the value fits; nothing
/// otherwise.
pub open spec fn spec_parse_i32(s: Seq<char>) -> Option<i32> {
    if digits_part(s).len() == 0 || !all_digits(digits_part(s)) {
        Option::None
    } else if i32::MIN <= signed_val(s) <= i32::MAX {
        Option::Some(signed_val(s) as i32)
    } else {
        Option::None
    }
}

/// The reading the numeric form fields use: a malformed or out-of-range
/// entry counts as zero.
pub open spec fn spec_parse_or_zero(s: Seq<char>) -> i32 {
    match spec_parse_i32(s) {
        Option::Some(v) => v,
        Option::None => 0,
    }
}

/// A digit string's value is never negative.
proof fn lemma_digits_val_nonneg(s: Seq<char>)
    requires
        all_digits(s),
    ensures
        digits_val(s) >= 0,
    decreases s.len(),
{
    if s.len() > 0 {
        lemma_digits_val_nonneg(s.drop_last());
    }
}

/// Dropping trailing digits never increases a digit string's value.
proof fn lemma_digits_prefix_le(s: Seq<char>, m: int)
    requires
        all_digits(s),
        0 <= m <= s.len(),
    ensures
        digits_val(s.subrange(0, m)) <= digits_val(s),
    decreases s.len() - m,
{
    if m == s.len() {
        assert(s.subrange(0, m) =~= s);
    } else {
        lemma_digits_prefix_le(s, m + 1);
        assert(s.subrange(0, m + 1).drop_last() =~= s.subrange(0, m));
        lemma_digits_val_nonneg(s.subrange(0, m));
        assert(digits_val(s.subrange(0, m + 1)) == digits_val(s.subrange(0, m)) * 10 + digit_val(
            s.subrange(0, m + 1).last(),
        ));
    }
}

/// Parses an optionally signed decimal integer, exactly as `spec_parse_i32`
/// states it.
#[verifier::loop_isolation(false)]
pub fn parse_i32(s: &str) -> (r: Option<i32>)
    ensures
        r == spec_parse_i32(s@),
{
    let n: usize = s.unicode_len();
    if n == 0 {
        return Option::None;
    }
    let first = s.get_char(0);
    let neg: bool = first == '-';
    let start: usize = if first == '-' || first == '+' {
        1
    } else {
        0
    };
    proof {
        if start == 1 {
            assert(digits_part(s@) =~= s@.subrange(1, n as int));
        } else {
            assert(digits_part(s@) =~= s@.subrange(0, n as int));
            assert(s@.subrange(0, n as int) =~= s@);
        }
    }
    if start == n {
        return Option::None;
    }
    let bound: i64 = 2147483648;
    let mut acc: i64 = 0;
    let mut i: usize = start;
    proof {
        assert(s@.subrange(start as int, start as int) =~= Seq::<char>::empty());
    }
    while i < n
        invariant
            start <= i <= n,
            0 <= acc <= bound,
            all_digits(s@.subrange(start as int, i as int)),
            acc == digits_val(s@.subrange(start as int, i as int)),
        decreases n - i,
    {
        let c = s.get_char(i);
        let code: u32 = c as u32;
        if code < 48 || code > 57 {
            proof {
                assert(digits_part(s@)[i - start] == s@[i as int]);
                assert(!all_digits(digits_part(s@)));
            }
            return Option::None;
        }
        let d: i64 = (code - 48) as i64;
        proof {
            assert(s@.subrange(start as int, i as int + 1).drop_last() =~= s@.subrange(
                start as int,
                i as int,
            ));
            assert(s@.subrange(start as int, i as int + 1).last() == s@[i as int]);
        }
        acc = acc * 10 + d;
        i = i + 1;
        if acc > bound {
            proof {
                let whole = digits_part(s@);
                if all_digits(whole) {
                    assert(whole.subrange(0, i - start) =~= s@.subrange(start as int, i as int));
                    lemma_digits_prefix_le(whole, i - start);
                }
            }
            return Option::None;
        }
    }
    proof {
        assert(s@.subrange(start as int, n as int) =~= digits_part(s@));
    }
    if neg {
        Option::Some((-acc) as i32)
    } else if acc > bound - 1 {
        Option::None
    } else {
        Option::Some(acc as i32)
    }
}

/// Parses as `parse_i32` does, reading anything malformed or out of range as
/// zero, exactly as `spec_parse_or_zero` states it.
pub fn parse_or_zero(s: &str) -> (r: i32)
    ensures
        r == spec_parse_or_zero(s@),
{
    match parse_i32(s) {
        Option::Some(v) => v,
        Option::None => 0,
    }
}

} // verus!
