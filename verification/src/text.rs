//! Fixed-point numbers as decimal text.

use vstd::prelude::*;
use vstd::string::StringExecFns;
use crate::fixed::{SCALE, UNBOUNDED};

verus! {

/// Decimal places that a fixed-point number has.
pub const PLACES: u32 = 9;

/// Ten to the power of `exponent`.
pub open spec fn power_of_ten(exponent: nat) -> nat
    decreases exponent,
{
    if exponent == 0 {
        1
    } else {
        10 * power_of_ten((exponent - 1) as nat)
    }
}

/// The character of a decimal digit.
pub open spec fn digit(value: nat) -> char {
    if value == 0 {
        '0'
    } else if value == 1 {
        '1'
    } else if value == 2 {
        '2'
    } else if value == 3 {
        '3'
    } else if value == 4 {
        '4'
    } else if value == 5 {
        '5'
    } else if value == 6 {
        '6'
    } else if value == 7 {
        '7'
    } else if value == 8 {
        '8'
    } else {
        '9'
    }
}

/// The decimal digits of a whole number, without leading zeros.
pub open spec fn digits(number: nat) -> Seq<char>
    decreases number,
{
    if number < 10 {
        seq![digit(number)]
    } else {
        digits(number / 10) + seq![digit(number % 10)]
    }
}

/// The last `width` decimal digits of a whole number, with leading zeros.
pub open spec fn last_digits(number: nat, width: nat) -> Seq<char>
    decreases width,
{
    if width == 0 {
        Seq::empty()
    } else {
        last_digits(number / 10, (width - 1) as nat) + seq![digit(number % 10)]
    }
}

/// A bounded fixed-point number in units of the last place kept, rounded to
/// the nearest unit, a tie going to the even neighbour.
pub open spec fn rounded(value: nat, places: nat) -> nat
    recommends
        places <= PLACES,
{
    let unit = power_of_ten((PLACES - places) as nat);
    let below = value / unit;
    let rest = value % unit;
    if 2 * rest > unit || (2 * rest == unit && below % 2 == 1) {
        below + 1
    } else {
        below
    }
}

/// A fixed-point number as decimal text with a given number of decimal
/// places, nine at most: `inf` for the unbounded number, else the rounded
/// number with as many decimals as asked for, and no point where none are.
pub open spec fn decimal_text(value: nat, places: nat) -> Seq<char> {
    let kept = if places <= PLACES {
        places
    } else {
        PLACES as nat
    };
    if value >= UNBOUNDED {
        "inf"@
    } else if kept == 0 {
        digits(rounded(value, 0))
    } else {
        digits(rounded(value, kept) / power_of_ten(kept)) + "."@ + last_digits(
            rounded(value, kept) % power_of_ten(kept),
            kept,
        )
    }
}

/// The decimals of a fraction of `width` digits, without the zeros at its
/// end: nothing at all for a fraction of zero.
pub open spec fn fraction_text(fraction: nat, width: nat) -> Seq<char>
    decreases width,
{
    if width == 0 || fraction == 0 {
        Seq::empty()
    } else if fraction % 10 == 0 {
        fraction_text(fraction / 10, (width - 1) as nat)
    } else {
        last_digits(fraction, width)
    }
}

/// A fixed-point number as the shortest decimal text that says it exactly:
/// `inf` for the unbounded number, else the whole part and, where there is a
/// fraction, a point and the decimals up to the last that is not zero.
pub open spec fn exact_text(value: nat) -> Seq<char> {
    if value >= UNBOUNDED {
        "inf"@
    } else if value % (SCALE as nat) == 0 {
        digits(value / (SCALE as nat))
    } else {
        digits(value / (SCALE as nat)) + "."@ + fraction_text(value % (SCALE as nat), PLACES as nat)
    }
}

/// The text of one decimal digit.
fn digit_text(value: u64) -> (text: &'static str)
    requires
        value < 10,
    ensures
        text@ == seq![digit(value as nat)],
{
    proof {
        reveal_strlit("0");
        reveal_strlit("1");
        reveal_strlit("2");
        reveal_strlit("3");
        reveal_strlit("4");
        reveal_strlit("5");
        reveal_strlit("6");
        reveal_strlit("7");
        reveal_strlit("8");
        reveal_strlit("9");
    }
    if value == 0 {
        "0"
    } else if value == 1 {
        "1"
    } else if value == 2 {
        "2"
    } else if value == 3 {
        "3"
    } else if value == 4 {
        "4"
    } else if value == 5 {
        "5"
    } else if value == 6 {
        "6"
    } else if value == 7 {
        "7"
    } else if value == 8 {
        "8"
    } else {
        "9"
    }
}

/// Appends the decimal digits of a whole number.
pub fn push_digits(out: &mut String, number: u64)
    ensures
        final(out)@ == old(out)@ + digits(number as nat),
    decreases number,
{
    if number >= 10 {
        push_digits(out, number / 10);
    }
    out.append(digit_text(number % 10));
}

/// Appends the last `width` decimal digits of a whole number.
fn push_last_digits(out: &mut String, number: u64, width: u32)
    ensures
        final(out)@ == old(out)@ + last_digits(number as nat, width as nat),
    decreases width,
{
    if width > 0 {
        push_last_digits(out, number / 10, width - 1);
        out.append(digit_text(number % 10));
    }
}

/// Ten to the power of `exponent`, for the exponents that a fixed-point
/// number can need.
fn ten_to(exponent: u32) -> (power: u64)
    requires
        exponent <= PLACES,
    ensures
        power as nat == power_of_ten(exponent as nat),
        1 <= power <= 1_000_000_000,
{
    proof {
        reveal_with_fuel(power_of_ten, 10);
    }
    if exponent == 0 {
        1
    } else if exponent == 1 {
        10
    } else if exponent == 2 {
        100
    } else if exponent == 3 {
        1_000
    } else if exponent == 4 {
        10_000
    } else if exponent == 5 {
        100_000
    } else if exponent == 6 {
        1_000_000
    } else if exponent == 7 {
        10_000_000
    } else if exponent == 8 {
        100_000_000
    } else {
        1_000_000_000
    }
}

/// Appends a fixed-point number as decimal text with the given number of
/// decimal places, of which at most nine are kept.
pub fn push_decimal(out: &mut String, value: u64, places: u32)
    ensures
        final(out)@ == old(out)@ + decimal_text(value as nat, places as nat),
{
    let kept: u32 = if places <= PLACES {
        places
    } else {
        PLACES
    };
    if value == UNBOUNDED {
        out.append("inf");
        return;
    }
    let unit: u64 = ten_to(PLACES - kept);
    let below: u64 = value / unit;
    let rest: u64 = value % unit;
    let nearest: u64 = if rest > unit - rest || (rest == unit - rest && below % 2 == 1) {
        below + 1
    } else {
        below
    };
    if kept == 0 {
        push_digits(out, nearest);
    } else {
        let scale: u64 = ten_to(kept);
        push_digits(out, nearest / scale);
        out.append(".");
        push_last_digits(out, nearest % scale, kept);
    }
}

/// Appends a fixed-point number as the shortest decimal text that says it
/// exactly.
pub fn push_exact(out: &mut String, value: u64)
    ensures
        final(out)@ == old(out)@ + exact_text(value as nat),
{
    if value == UNBOUNDED {
        out.append("inf");
        return;
    }
    push_digits(out, value / SCALE);
    let mut fraction: u64 = value % SCALE;
    if fraction != 0 {
        out.append(".");
        let mut width: u32 = PLACES;
        assert(power_of_ten(9) == 1_000_000_000) by {
            reveal_with_fuel(power_of_ten, 10);
        }
        while fraction % 10 == 0
            invariant
                0 < fraction < power_of_ten(width as nat),
                width <= PLACES,
                fraction_text(fraction as nat, width as nat) == fraction_text(
                    (value % SCALE) as nat,
                    PLACES as nat,
                ),
            decreases width,
        {
            assert(width >= 2) by {
                reveal_with_fuel(power_of_ten, 2);
            }
            fraction = fraction / 10;
            width = width - 1;
        }
        push_last_digits(out, fraction, width);
    }
}

/// A fixed-point number as decimal text.
pub fn format_decimal(value: u64, places: u32) -> (text: String)
    ensures
        text@ == decimal_text(value as nat, places as nat),
{
    let mut text = String::new();
    push_decimal(&mut text, value, places);
    text
}

} // verus!
