//! Decimal notation for unsigned integers.

use vstd::prelude::*;

verus! {

/// The character that stands for a digit.
pub open spec fn digit_char(digit: nat) -> char {
    if digit == 0 {
        '0'
    } else if digit == 1 {
        '1'
    } else if digit == 2 {
        '2'
    } else if digit == 3 {
        '3'
    } else if digit == 4 {
        '4'
    } else if digit == 5 {
        '5'
    } else if digit == 6 {
        '6'
    } else if digit == 7 {
        '7'
    } else if digit == 8 {
        '8'
    } else {
        '9'
    }
}

/// The decimal notation of a number: its digits from the most significant
/// to the least, without leading zeros, and `0` for zero.
pub open spec fn decimal_text(n: nat) -> Seq<char>
    decreases n,
{
    if n < 10 {
        seq![digit_char(n)]
    } else {
        decimal_text(n / 10).push(digit_char(n % 10))
    }
}

/// Decimal notation is never empty and starts with `0` only for zero.
pub proof fn lemma_decimal_text_has_no_leading_zero(n: nat)
    ensures
        decimal_text(n).len() >= 1,
        decimal_text(n)[0] == '0' <==> n == 0,
    decreases n,
{
    if n >= 10 {
        lemma_decimal_text_has_no_leading_zero(n / 10);
    }
}

/// Different digits are written with different characters.
pub proof fn lemma_digit_char_is_injective(a: nat, b: nat)
    requires
        a < 10,
        b < 10,
        digit_char(a) == digit_char(b),
    ensures
        a == b,
{
}

/// Different numbers have different decimal notations.
pub proof fn lemma_decimal_text_is_injective(a: nat, b: nat)
    requires
        decimal_text(a) == decimal_text(b),
    ensures
        a == b,
    decreases a,
{
    let ta = decimal_text(a);
    let tb = decimal_text(b);
    if a < 10 && b < 10 {
        assert(ta[0] == digit_char(a));
        assert(tb[0] == digit_char(b));
        lemma_digit_char_is_injective(a, b);
    } else if a >= 10 && b >= 10 {
        let pa = decimal_text(a / 10);
        let pb = decimal_text(b / 10);
        assert(ta == pa.push(digit_char(a % 10)));
        assert(tb == pb.push(digit_char(b % 10)));
        assert(ta.drop_last() =~= pa);
        assert(tb.drop_last() =~= pb);
        assert(ta.last() == digit_char(a % 10));
        assert(tb.last() == digit_char(b % 10));
        lemma_digit_char_is_injective(a % 10, b % 10);
        lemma_decimal_text_is_injective(a / 10, b / 10);
        assert(a == 10 * (a / 10) + a % 10);
        assert(b == 10 * (b / 10) + b % 10);
    } else if a < 10 {
        lemma_decimal_text_has_no_leading_zero(b / 10);
        assert(ta.len() == 1);
        assert(tb.len() == decimal_text(b / 10).len() + 1);
    } else {
        lemma_decimal_text_has_no_leading_zero(a / 10);
        assert(tb.len() == 1);
        assert(ta.len() == decimal_text(a / 10).len() + 1);
    }
}

/// The notation of one digit.
fn digit_text(digit: u8) -> (text: &'static str)
    requires
        digit < 10,
    ensures
        text@ == seq![digit_char(digit as nat)],
{
    proof {
        reveal_strlit("0");
        reveal_strlit("1");
        reveal_strlit("2");
        reveal_strlit("3");
        reveal_strlit("4");
        reveal_strlit("5");
        reveal_strlit("6");
        reveal_strlit("7");
        reveal_strlit("8");
        reveal_strlit("9");
    }
    let text: &'static str = if digit == 0 {
        "0"
    } else if digit == 1 {
        "1"
    } else if digit == 2 {
        "2"
    } else if digit == 3 {
        "3"
    } else if digit == 4 {
        "4"
    } else if digit == 5 {
        "5"
    } else if digit == 6 {
        "6"
    } else if digit == 7 {
        "7"
    } else if digit == 8 {
        "8"
    } else {
        "9"
    };
    assert(text@ =~= seq![digit_char(digit as nat)]);
    text
}

/// Writes a number in decimal notation.
pub fn render_decimal(n: u128) -> (text: String)
    ensures
        text@ == decimal_text(n as nat),
    decreases n,
{
    if n < 10 {
        digit_text(n as u8).to_owned()
    } else {
        let mut text = render_decimal(n / 10);
        text.append(digit_text((n % 10) as u8));
        assert(text@ =~= decimal_text((n / 10) as nat).push(digit_char((n % 10) as nat)));
        text
    }
}

} // verus!
