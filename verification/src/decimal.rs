//! Decimal notation of fixed width: the model, its laws, and the writer.

use vstd::prelude::*;
use vstd::string::StringExecFns;
use vstd::arithmetic::div_mod::{lemma_div_denominator, lemma_mod_bound, lemma_mod_breakdown};

verus! {

/// Ten to the power `exp`.
pub open spec fn pow10(exp: nat) -> nat
    decreases exp,
{
    if exp == 0 {
        1
    } else {
        10 * pow10((exp - 1) as nat)
    }
}

/// The character that writes a digit below ten.
pub open spec fn digit_char(digit: nat) -> char {
    if digit == 0 {
        '0'
    } else if digit == 1 {
        '1'
    } else if digit == 2 {
        '2'
    } else if digit == 3 {
        '3'
    } else if digit == 4 {
        '4'
    } else if digit == 5 {
        '5'
    } else if digit == 6 {
        '6'
    } else if digit == 7 {
        '7'
    } else if digit == 8 {
        '8'
    } else {
        '9'
    }
}

/// Whether a character is one of `0` to `9`.
pub open spec fn is_decimal_digit(c: char) -> bool {
    '0' <= c && c <= '9'
}

/// The digit that a decimal character writes.
pub open spec fn digit_value(c: char) -> nat {
    (c as u32 - '0' as u32) as nat
}

/// The last `width` decimal digits of `value`, most significant first, with
/// zeros in front where `value` has fewer digits.
pub open spec fn decimal_digits(value: nat, width: nat) -> Seq<char>
    decreases width,
{
    if width == 0 {
        Seq::empty()
    } else {
        decimal_digits(value / 10, (width - 1) as nat).push(digit_char(value % 10))
    }
}

/// The number that a string of decimal digits writes.
pub open spec fn decimal_value(text: Seq<char>) -> nat
    decreases text.len(),
{
    if text.len() == 0 {
        0
    } else {
        decimal_value(text.drop_last()) * 10 + digit_value(text.last())
    }
}

/// Every power of ten is positive.
pub proof fn lemma_pow10_positive(exp: nat)
    ensures
        pow10(exp) > 0,
    decreases exp,
{
    if exp > 0 {
        lemma_pow10_positive((exp - 1) as nat);
    }
}

/// Powers of ten grow with the exponent.
pub proof fn lemma_pow10_monotonic(low: nat, high: nat)
    requires
        low <= high,
    ensures
        pow10(low) <= pow10(high),
    decreases high,
{
    if low < high {
        lemma_pow10_monotonic(low, (high - 1) as nat);
    }
}

/// Ten to the ninth is a thousand million, so it and all lower powers fit in
/// 32 bits.
pub proof fn lemma_pow10_nine()
    ensures
        pow10(9) == 1_000_000_000,
{
    reveal_with_fuel(pow10, 10);
}

/// A number written to a width has exactly that many characters, and each is
/// a decimal digit.
pub proof fn lemma_decimal_digits_shape(value: nat, width: nat)
    ensures
        decimal_digits(value, width).len() == width,
        forall|i: int|
            0 <= i < width ==> is_decimal_digit(#[trigger] decimal_digits(value, width)[i]),
    decreases width,
{
    if width > 0 {
        lemma_decimal_digits_shape(value / 10, (width - 1) as nat);
    }
}

/// Reading back what was written to a width gives the number modulo ten to
/// that width; so what is read is below that power of ten.
pub proof fn lemma_decimal_digits_value(value: nat, width: nat)
    ensures
        decimal_value(decimal_digits(value, width)) == value % pow10(width),
        decimal_value(decimal_digits(value, width)) < pow10(width),
    decreases width,
{
    lemma_pow10_positive(width);
    lemma_mod_bound(value as int, pow10(width) as int);
    if width > 0 {
        let shorter = (width - 1) as nat;
        let text = decimal_digits(value, width);
        lemma_decimal_digits_value(value / 10, shorter);
        lemma_pow10_positive(shorter);
        assert(text.drop_last() =~= decimal_digits(value / 10, shorter));
        assert(text.last() == digit_char(value % 10));
        assert(digit_value(digit_char(value % 10)) == value % 10);
        lemma_mod_breakdown(value as int, 10, pow10(shorter) as int);
    }
}

/// The one-character text of a digit.
fn digit_text(digit: u32) -> (text: &'static str)
    requires
        digit < 10,
    ensures
        text@ == seq![digit_char(digit as nat)],
{
    proof {
        reveal_strlit("0");
        reveal_strlit("1");
        reveal_strlit("2");
        reveal_strlit("3");
        reveal_strlit("4");
        reveal_strlit("5");
        reveal_strlit("6");
        reveal_strlit("7");
        reveal_strlit("8");
        reveal_strlit("9");
    }
    let text = if digit == 0 {
        "0"
    } else if digit == 1 {
        "1"
    } else if digit == 2 {
        "2"
    } else if digit == 3 {
        "3"
    } else if digit == 4 {
        "4"
    } else if digit == 5 {
        "5"
    } else if digit == 6 {
        "6"
    } else if digit == 7 {
        "7"
    } else if digit == 8 {
        "8"
    } else {
        "9"
    };
    assert(text@ =~= seq![digit_char(digit as nat)]);
    text
}

/// Ten to the power `exp`, for the exponents whose power fits in 32 bits.
pub fn power_of_ten(exp: u32) -> (power: u32)
    requires
        exp <= 9,
    ensures
        power == pow10(exp as nat),
{
    let mut power: u32 = 1;
    let mut done: u32 = 0;
    while done < exp
        invariant
            done <= exp <= 9,
            power == pow10(done as nat),
        decreases exp - done,
    {
        proof {
            lemma_pow10_monotonic((done + 1) as nat, 9);
            lemma_pow10_nine();
        }
        power = power * 10;
        done = done + 1;
    }
    power
}

/// The decimal digit of `value` at `place`, counted from the units.
pub open spec fn digit_at(value: nat, place: nat) -> nat {
    (value / pow10(place)) % 10
}

/// Writing to a width is writing the tenth part to one character less, and
/// then the units.
pub proof fn lemma_decimal_digits_step(value: nat, width: nat)
    requires
        width > 0,
    ensures
        decimal_digits(value, width) == decimal_digits(value / 10, (width - 1) as nat).push(
            digit_char(value % 10),
        ),
{
}

/// Dropping one more digit is dividing by the next power of ten.
pub proof fn lemma_pow10_step_division(value: nat, place: nat)
    ensures
        (value / pow10(place)) / 10 == value / pow10(place + 1),
{
    lemma_pow10_positive(place);
    lemma_div_denominator(value as int, pow10(place) as int, 10);
    assert(pow10(place + 1) == 10 * pow10(place));
    assert(pow10(place) * 10 == pow10(place + 1));
}

/// Writes `value` in decimal to exactly `width` characters: zeros fill the
/// front, and digits beyond the width are left off.
pub fn zero_padded(value: u32, width: u32) -> (text: String)
    ensures
        text@ == decimal_digits(value as nat, width as nat),
        text@.len() == width,
        forall|i: int| 0 <= i < width ==> is_decimal_digit(#[trigger] text@[i]),
        decimal_value(text@) == value as nat % pow10(width as nat),
{
    // The digits from the units up.
    let mut places: Vec<u32> = Vec::new();
    let mut rest: u32 = value;
    let mut place: u32 = 0;
    assert(pow10(0) == 1);
    while place < width
        invariant
            place <= width,
            places@.len() == place,
            rest == value as nat / pow10(place as nat),
            forall|j: int|
                0 <= j < place ==> #[trigger] places@[j] as nat == digit_at(value as nat, j as nat),
        decreases width - place,
    {
        proof {
            lemma_pow10_step_division(value as nat, place as nat);
        }
        places.push(rest % 10);
        rest = rest / 10;
        place = place + 1;
    }
    // Written from the highest place down.
    let mut text = String::new();
    let mut left: u32 = width;
    while left > 0
        invariant
            left <= width,
            places@.len() == width,
            forall|j: int|
                0 <= j < width ==> #[trigger] places@[j] as nat == digit_at(value as nat, j as nat),
            text@ == decimal_digits(value as nat / pow10(left as nat), (width - left) as nat),
        decreases left,
    {
        let digit: u32 = places[(left - 1) as usize];
        proof {
            lemma_pow10_step_division(value as nat, (left - 1) as nat);
            assert(digit as nat == digit_at(value as nat, (left - 1) as nat));
        }
        let ghost before = text@;
        text.append(digit_text(digit));
        left = left - 1;
        proof {
            let shifted = value as nat / pow10(left as nat);
            let written = (width - left) as nat;
            assert(shifted / 10 == value as nat / pow10((left + 1) as nat));
            assert(before == decimal_digits(shifted / 10, (written - 1) as nat));
            lemma_decimal_digits_step(shifted, written);
            assert(text@ =~= before.push(digit_char(shifted % 10)));
        }
    }
    proof {
        assert(pow10(0) == 1);
        lemma_decimal_digits_shape(value as nat, width as nat);
        lemma_decimal_digits_value(value as nat, width as nat);
    }
    text
}

} // verus!
