//! Reading a decimal from its notation: digits, and optionally a point
//! followed by up to eighteen more digits.

use crate::decimal::Decimal;
use vstd::prelude::*;

verus! {

/// The byte that stands for the decimal point.
pub const POINT: u8 = 46;

/// Number of digits that may follow the point.
pub const FRACTION_DIGITS: usize = 18;

/// Whether a byte is one of `0` to `9`.
pub open spec fn is_digit(byte: u8) -> bool {
    48 <= byte <= 57
}

/// Whether a text consists of digits only.
pub open spec fn all_digits(text: Seq<u8>) -> bool {
    forall|i: int| 0 <= i < text.len() ==> is_digit(#[trigger] text[i])
}

/// The number that a run of digits denotes.
pub open spec fn digits_value(digits: Seq<u8>) -> nat
    decreases digits.len(),
{
    if digits.len() == 0 {
        0
    } else {
        digits_value(digits.drop_last()) * 10 + (digits.last() - 48) as nat
    }
}

/// Ten to the power of `exponent`.
pub open spec fn pow10(exponent: nat) -> nat
    decreases exponent,
{
    if exponent == 0 {
        1
    } else {
        10 * pow10((exponent - 1) as nat)
    }
}

/// The position of the first point in a text, or its length if it holds
/// none.
pub open spec fn point_position(text: Seq<u8>) -> nat
    decreases text.len(),
{
    if text.len() == 0 || text[0] == POINT {
        0
    } else {
        1 + point_position(text.drop_first())
    }
}

/// The digits before the first point.
pub open spec fn whole_part(text: Seq<u8>) -> Seq<u8> {
    text.take(point_position(text) as int)
}

/// What follows the first point; empty if there is no point.
pub open spec fn fraction_part(text: Seq<u8>) -> Seq<u8> {
    if point_position(text) < text.len() {
        text.skip(point_position(text) as int + 1)
    } else {
        Seq::empty()
    }
}

/// Whether a text denotes a decimal: at least one digit, then either
/// nothing or a point and one to eighteen digits.
pub open spec fn is_notation(text: Seq<u8>) -> bool {
    &&& whole_part(text).len() >= 1
    &&& all_digits(whole_part(text))
    &&& all_digits(fraction_part(text))
    &&& fraction_part(text).len() <= FRACTION_DIGITS
    &&& point_position(text) < text.len() ==> fraction_part(text).len() >= 1
}

/// The count of `1 / SCALE` parts that a notation denotes: its digits
/// read as one number, times ten for every place that the fraction
/// leaves unused.
pub open spec fn notation_units(text: Seq<u8>) -> nat {
    digits_value(whole_part(text) + fraction_part(text)) * pow10(
        (FRACTION_DIGITS - fraction_part(text).len()) as nat,
    )
}

/// The decimal that a text denotes, if it denotes one that can be held.
pub open spec fn parsed(text: Seq<u8>) -> Option<Decimal> {
    if is_notation(text) && notation_units(text) <= u128::MAX {
        Some(Decimal { units: notation_units(text) as u128 })
    } else {
        None
    }
}

/// Eighteen places make up the scale of a decimal.
pub proof fn lemma_pow10_of_fraction_digits()
    ensures
        pow10(18) == crate::decimal::SCALE,
        pow10(0) == 1,
        forall|e: nat| pow10(e) >= 1,
{
    reveal_with_fuel(pow10, 19);
    assert forall|e: nat| pow10(e) >= 1 by {
        lemma_pow10_is_positive(e);
    }
}

/// Every power of ten is at least one.
pub proof fn lemma_pow10_is_positive(exponent: nat)
    ensures
        pow10(exponent) >= 1,
    decreases exponent,
{
    if exponent > 0 {
        lemma_pow10_is_positive((exponent - 1) as nat);
    }
}

/// The first point is where no earlier byte is a point and the text ends
/// or holds a point.
pub proof fn lemma_point_position_is_first(text: Seq<u8>, position: int)
    requires
        0 <= position <= text.len(),
        forall|i: int| 0 <= i < position ==> text[i] != POINT,
        position == text.len() || text[position] == POINT,
    ensures
        point_position(text) == position,
    decreases text.len(),
{
    if position > 0 {
        let rest = text.drop_first();
        assert forall|i: int| 0 <= i < position - 1 implies rest[i] != POINT by {
            assert(rest[i] == text[i + 1]);
        }
        lemma_point_position_is_first(rest, position - 1);
    }
}

/// One more digit: the number so far times ten, plus the digit.
proof fn lemma_digits_value_push(digits: Seq<u8>, digit: u8)
    ensures
        digits_value(digits.push(digit)) == digits_value(digits) * 10 + (digit - 48) as nat,
{
    assert(digits.push(digit).drop_last() =~= digits);
}

/// The number after one more digit, as far as it can be held.
fn push_digit(number: Option<u128>, digit: u8) -> (r: Option<u128>)
    requires
        digit <= 9,
    ensures
        r == match number {
            Some(n) => if n * 10 + digit <= u128::MAX {
                Some((n * 10 + digit) as u128)
            } else {
                None
            },
            None => None,
        },
{
    match number {
        Some(n) => match n.checked_mul(10) {
            Some(tens) => tens.checked_add(digit as u128),
            None => None,
        },
        None => None,
    }
}

/// A number as far as it can be held.
pub open spec fn held(number: nat) -> Option<u128> {
    if number <= u128::MAX {
        Some(number as u128)
    } else {
        None
    }
}

impl Decimal {
    /// Reads a decimal from its notation. Returns `None` exactly when the
    /// text is no notation or denotes more than a decimal can hold.
    pub fn parse(text: &[u8]) -> (r: Option<Decimal>)
        ensures
            r == parsed(text@),
    {
        let len: usize = text.len();
        let mut i: usize = 0;
        let mut digits_ok: bool = true;
        let mut number: Option<u128> = Some(0);
        while i < len && text[i] != POINT
            invariant
                len == text@.len(),
                0 <= i <= len,
                forall|k: int| 0 <= k < i ==> text@[k] != POINT,
                digits_ok == all_digits(text@.take(i as int)),
                digits_ok ==> number == held(digits_value(text@.take(i as int))),
            decreases len - i,
        {
            let byte: u8 = text[i];
            proof {
                assert(text@.take(i + 1) =~= text@.take(i as int).push(byte));
                lemma_digits_value_push(text@.take(i as int), byte);
                if all_digits(text@.take(i + 1)) {
                    assert forall|k: int| 0 <= k < i implies is_digit(
                        #[trigger] text@.take(i as int)[k],
                    ) by {
                        assert(text@.take(i + 1)[k] == text@.take(i as int)[k]);
                    }
                    assert(is_digit(text@.take(i + 1)[i as int]));
                }
            }
            if 48 <= byte && byte <= 57 {
                number = push_digit(number, byte - 48);
            } else {
                digits_ok = false;
                proof {
                    assert(text@.take(i + 1)[i as int] == byte);
                }
            }
            i = i + 1;
        }
        let point: usize = i;
        let ghost whole = text@.take(point as int);
        proof {
            lemma_point_position_is_first(text@, point as int);
            assert(whole_part(text@) == whole);
        }
        if point == 0 || !digits_ok {
            return None;
        }
        let fraction_len: usize = if point < len {
            len - point - 1
        } else {
            0
        };
        let ghost fraction = fraction_part(text@);
        assert(fraction.len() == fraction_len);
        if point < len && (fraction_len == 0 || fraction_len > FRACTION_DIGITS) {
            return None;
        }
        let mut j: usize = 0;
        while j < fraction_len
            invariant
                len == text@.len(),
                point < len || fraction_len == 0,
                fraction == fraction_part(text@),
                fraction.len() == fraction_len,
                fraction_len > 0 ==> fraction == text@.skip(point + 1),
                fraction_len > 0 ==> fraction_len == len - point - 1,
                0 <= j <= fraction_len,
                all_digits(whole),
                digits_ok == all_digits(fraction.take(j as int)),
                digits_ok ==> number == held(digits_value(whole + fraction.take(j as int))),
            decreases fraction_len - j,
        {
            let byte: u8 = text[point + 1 + j];
            proof {
                assert(fraction[j as int] == byte);
                assert(fraction.take(j + 1) =~= fraction.take(j as int).push(byte));
                assert(whole + fraction.take(j + 1) =~= (whole + fraction.take(j as int)).push(
                    byte,
                ));
                lemma_digits_value_push(whole + fraction.take(j as int), byte);
                if all_digits(fraction.take(j + 1)) {
                    assert forall|k: int| 0 <= k < j implies is_digit(
                        #[trigger] fraction.take(j as int)[k],
                    ) by {
                        assert(fraction.take(j + 1)[k] == fraction.take(j as int)[k]);
                    }
                    assert(is_digit(fraction.take(j + 1)[j as int]));
                }
            }
            if 48 <= byte && byte <= 57 {
                number = push_digit(number, byte - 48);
            } else {
                digits_ok = false;
                proof {
                    assert(fraction.take(j + 1)[j as int] == byte);
                }
            }
            j = j + 1;
        }
        proof {
            assert(fraction.take(fraction_len as int) =~= fraction);
        }
        if !digits_ok {
            return None;
        }
        assert(is_notation(text@));
        let ghost digits = digits_value(whole + fraction);
        assert(digits * pow10(0) == digits) by {
            assert(pow10(0) == 1);
            assert(digits * 1 == digits);
        }
        let unused: usize = FRACTION_DIGITS - fraction_len;
        let mut scaled: usize = 0;
        while scaled < unused
            invariant
                0 <= scaled <= unused,
                number == held(digits * pow10(scaled as nat)),
            decreases unused - scaled,
        {
            proof {
                lemma_pow10_is_positive(scaled as nat);
                assert(digits * pow10((scaled + 1) as nat) == digits * pow10(scaled as nat) * 10)
                    by (nonlinear_arith)
                    requires
                        pow10((scaled + 1) as nat) == 10 * pow10(scaled as nat),
                ;
            }
            number = push_digit(number, 0);
            scaled = scaled + 1;
        }
        match number {
            Some(units) => Some(Decimal { units }),
            None => None,
        }
    }
}

} // verus!
