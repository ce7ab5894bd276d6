//! Rendering of raw token amounts as decimal text.
use vstd::prelude::*;

verus! {

/// Decimal places of the mint that the client creates.
pub const DECIMALS: u8 = 6;

/// The character of one decimal digit.
pub open spec fn digit_char(d: nat) -> char {
    if d == 0 { '0' } else if d == 1 { '1' } else if d == 2 { '2' } else if d == 3 { '3' }
    else if d == 4 { '4' } else if d == 5 { '5' } else if d == 6 { '6' } else if d == 7 { '7' }
    else if d == 8 { '8' } else { '9' }
}

/// The decimal digits of `n`, without leading zeros (`0` is written `"0"`).
pub open spec fn decimal_text(n: nat) -> Seq<char>
    decreases n,
{
    if n < 10 {
        seq![digit_char(n)]
    } else {
        decimal_text(n / 10).push(digit_char(n % 10))
    }
}

/// The last `width` decimal digits of `n`, left-padded with zeros.
pub open spec fn padded_digits(n: nat, width: nat) -> Seq<char>
    decreases width,
{
    if width == 0 {
        Seq::empty()
    } else {
        padded_digits(n / 10, (width - 1) as nat).push(digit_char(n % 10))
    }
}

/// `s` without its trailing `'0'` characters.
pub open spec fn trim_trailing_zeros(s: Seq<char>) -> Seq<char>
    decreases s.len(),
{
    if s.len() > 0 && s.last() == '0' {
        trim_trailing_zeros(s.drop_last())
    } else {
        s
    }
}

/// `amount` shown with `decimals` decimal places, with excess fractional
/// zeros and an unneeded decimal point trimmed.
pub open spec fn ui_amount_text(amount: nat, decimals: nat) -> Seq<char> {
    let scale = pow10(decimals);
    let whole = decimal_text(amount / scale);
    let frac = trim_trailing_zeros(padded_digits(amount % scale, decimals));
    if frac.len() == 0 {
        whole
    } else {
        whole + seq!['.'] + frac
    }
}

pub open spec fn pow10(e: nat) -> nat
    decreases e,
{
    if e == 0 { 1 } else { 10 * pow10((e - 1) as nat) }
}

/// Relies on spl_token_2022::amount_to_ui_amount_string_trimmed, which
/// left-pads the amount to `decimals + 1` digits, inserts the decimal point
/// before the last `decimals` of them, then trims trailing zeros and a
/// trailing point.
#[verifier::external_body]
fn ui_amount_trimmed(amount: u64, decimals: u8) -> (r: String)
    ensures
        r@ == ui_amount_text(amount as nat, decimals as nat),
{
    spl_token_2022::amount_to_ui_amount_string_trimmed(amount, decimals)
}

/// A raw balance of the client's mint as human-readable text.
pub fn format_balance(amount: u64) -> (r: String)
    ensures
        r@ == ui_amount_text(amount as nat, DECIMALS as nat),
{
    ui_amount_trimmed(amount, DECIMALS)
}

} // verus!
