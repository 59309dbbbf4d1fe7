//! Decimal and hexadecimal digit strings and their numeric values.

use vstd::prelude::*;

verus! {

pub open spec fn is_dec_digit(c: char) -> bool {
    48 <= c as u32 <= 57
}

pub open spec fn all_dec_digits(s: Seq<char>) -> bool {
    forall|i: int| 0 <= i < s.len() ==> is_dec_digit(#[trigger] s[i])
}

/// The decimal value of a digit string, most significant digit first.
pub open spec fn dec_value(s: Seq<char>) -> int
    decreases s.len(),
{
    if s.len() == 0 {
        0
    } else {
        dec_value(s.drop_last()) * 10 + (s.last() as u32 - 48)
    }
}

/// Under all-digits, the value of a longer prefix is at least the value of
/// a shorter one, and never negative.
pub proof fn lemma_dec_value_monotone(s: Seq<char>, k: int)
    requires
        0 <= k <= s.len(),
        all_dec_digits(s),
    ensures
        0 <= dec_value(s.take(k)),
        forall|j: int| 0 <= j <= k ==> #[trigger] dec_value(s.take(j)) <= dec_value(s.take(k)),
    decreases k,
{
    if k > 0 {
        lemma_dec_value_monotone(s, k - 1);
        assert(s.take(k).drop_last() =~= s.take(k - 1));
        assert(s.take(k).last() == s[k - 1]);
    }
}

/// A decimal value stays within the bound its digit count gives.
pub proof fn lemma_dec_value_bound(s: Seq<char>)
    requires
        all_dec_digits(s),
    ensures
        0 <= dec_value(s),
        s.len() <= 3 ==> dec_value(s) <= 999,
        s.len() <= 2 ==> dec_value(s) <= 99,
        s.len() <= 1 ==> dec_value(s) <= 9,
    decreases s.len(),
{
    if s.len() > 0 {
        assert(all_dec_digits(s.drop_last()));
        lemma_dec_value_bound(s.drop_last());
    }
}

/// A digit of a hexadecimal group, either case.
pub open spec fn is_hex_digit(c: char) -> bool {
    is_dec_digit(c) || (97 <= c as u32 <= 102) || (65 <= c as u32 <= 70)
}

pub open spec fn all_hex_digits(s: Seq<char>) -> bool {
    forall|i: int| 0 <= i < s.len() ==> is_hex_digit(#[trigger] s[i])
}

/// The numeric value of one hexadecimal digit.
pub open spec fn hex_digit_val(c: char) -> int {
    if is_dec_digit(c) {
        c as u32 - 48
    } else if 97 <= c as u32 <= 102 {
        c as u32 - 87
    } else {
        c as u32 - 55
    }
}

/// The value of a hexadecimal digit string, most significant digit first.
pub open spec fn hex_value(s: Seq<char>) -> int
    decreases s.len(),
{
    if s.len() == 0 {
        0
    } else {
        hex_value(s.drop_last()) * 16 + hex_digit_val(s.last())
    }
}

/// A hexadecimal value stays within the bound its digit count gives.
pub proof fn lemma_hex_value_bound(s: Seq<char>)
    requires
        all_hex_digits(s),
        s.len() <= 4,
    ensures
        0 <= hex_value(s) < 0x10000,
        s.len() <= 3 ==> hex_value(s) < 0x1000,
        s.len() <= 2 ==> hex_value(s) < 0x100,
        s.len() <= 1 ==> hex_value(s) < 0x10,
    decreases s.len(),
{
    if s.len() > 0 {
        assert(all_hex_digits(s.drop_last()));
        lemma_hex_value_bound(s.drop_last());
    }
}

} // verus!
