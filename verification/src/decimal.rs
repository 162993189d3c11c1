//! Decimal text of integers, as sequences of characters.

use vstd::prelude::*;

verus! {

/// The character that writes the digit `d`, for `0 <= d <= 9`.
pub open spec fn digit_char(d: int) -> char {
    if d == 0 {
        '0'
    } else if d == 1 {
        '1'
    } else if d == 2 {
        '2'
    } else if d == 3 {
        '3'
    } else if d == 4 {
        '4'
    } else if d == 5 {
        '5'
    } else if d == 6 {
        '6'
    } else if d == 7 {
        '7'
    } else if d == 8 {
        '8'
    } else {
        '9'
    }
}

/// The decimal digits of `n`, most significant first, without leading zeros
/// (a single `0` for zero).
pub open spec fn decimal(n: nat) -> Seq<char>
    decreases n,
{
    if n < 10 {
        seq![digit_char(n as int)]
    } else {
        decimal(n / 10).push(digit_char((n % 10) as int))
    }
}

/// The decimal digits of `n`, with one leading zero where `n` has a single
/// digit.
pub open spec fn two_digits(n: nat) -> Seq<char> {
    if n < 10 {
        seq!['0', digit_char(n as int)]
    } else {
        decimal(n)
    }
}

/// A signed integer at a width of at least two characters: non-negative
/// values as `two_digits`, negative values as a minus sign and their digits.
pub open spec fn signed_two_digits(x: int) -> Seq<char> {
    if x < 0 {
        seq!['-'] + decimal((-x) as nat)
    } else {
        two_digits(x as nat)
    }
}

/// An amount counted in hundredths, written with exactly two digits after
/// the point: `-1234` reads `-12.34`, `5` reads `0.05`.
pub open spec fn hundredths_text(amount: int) -> Seq<char> {
    let magnitude = if amount < 0 { -amount } else { amount };
    let sign = if amount < 0 { seq!['-'] } else { Seq::<char>::empty() };
    sign + decimal((magnitude / 100) as nat) + seq!['.'] + two_digits((magnitude % 100) as nat)
}

/// A number below a hundred is written with exactly two digits.
pub proof fn lemma_two_digits_below_hundred(n: nat)
    requires
        n < 100,
    ensures
        two_digits(n).len() == 2,
{
    reveal_with_fuel(decimal, 2);
}

/// The text of one digit.
fn digit_text(d: u8) -> (text: &'static str)
    requires
        d < 10,
    ensures
        text@ == seq![digit_char(d as int)],
{
    proof {
        reveal_strlit("0");
        reveal_strlit("1");
        reveal_strlit("2");
        reveal_strlit("3");
        reveal_strlit("4");
        reveal_strlit("5");
        reveal_strlit("6");
        reveal_strlit("7");
        reveal_strlit("8");
        reveal_strlit("9");
    }
    match d {
        0 => "0",
        1 => "1",
        2 => "2",
        3 => "3",
        4 => "4",
        5 => "5",
        6 => "6",
        7 => "7",
        8 => "8",
        _ => "9",
    }
}

/// Writes `n` in decimal.
pub fn render_decimal(n: u128) -> (text: String)
    ensures
        text@ == decimal(n as nat),
    decreases n,
{
    if n < 10 {
        String::from_str(digit_text(n as u8))
    } else {
        let mut text = render_decimal(n / 10);
        text.append(digit_text((n % 10) as u8));
        text
    }
}

/// Writes `n` in decimal with at least two digits.
pub fn render_two_digits(n: u128) -> (text: String)
    ensures
        text@ == two_digits(n as nat),
{
    if n < 10 {
        let mut text = String::from_str(digit_text(0));
        text.append(digit_text(n as u8));
        text
    } else {
        render_decimal(n)
    }
}

/// Writes `x` at a width of at least two characters, the sign included.
pub fn render_signed_two_digits(x: i64) -> (text: String)
    ensures
        text@ == signed_two_digits(x as int),
{
    if x < 0 {
        proof {
            reveal_strlit("-");
        }
        let magnitude: u128 = (-(x as i128)) as u128;
        let mut text = String::from_str("-");
        let digits = render_decimal(magnitude);
        text.append(digits.as_str());
        text
    } else {
        render_two_digits(x as u128)
    }
}

/// Writes an amount counted in hundredths with two digits after the point.
pub fn render_hundredths(amount: i128) -> (text: String)
    ensures
        text@ == hundredths_text(amount as int),
{
    proof {
        reveal_strlit("-");
        reveal_strlit("");
        reveal_strlit(".");
    }
    let magnitude: u128 = if amount < 0 {
        ((-(amount + 1)) as u128) + 1
    } else {
        amount as u128
    };
    let mut text = if amount < 0 { String::from_str("-") } else { String::from_str("") };
    let units = render_decimal(magnitude / 100);
    text.append(units.as_str());
    text.append(".");
    let fraction = render_two_digits(magnitude % 100);
    text.append(fraction.as_str());
    text
}

} // verus!
