//! Decimal notation for the integers that appear on a command line.

use vstd::prelude::*;

verus! {

/// The ten digits, each at the index of its value.
pub open spec fn digits() -> Seq<char> {
    "0123456789"@
}

/// The decimal notation of a natural number, without leading zeros.
pub open spec fn decimal(n: nat) -> Seq<char>
    decreases n,
{
    if n < 10 {
        seq![digits()[n as int]]
    } else {
        decimal(n / 10).push(digits()[(n % 10) as int])
    }
}

/// The decimal notation of an integer: a minus sign before a negative one.
pub open spec fn signed_decimal(i: int) -> Seq<char> {
    if i < 0 {
        seq!['-'] + decimal((-i) as nat)
    } else {
        decimal(i as nat)
    }
}

/// Appends the decimal notation of `n` to `text`.
pub fn append_decimal(text: &mut String, n: u64)
    ensures
        final(text)@ == old(text)@ + decimal(n as nat),
    decreases n,
{
    if n >= 10 {
        append_decimal(text, n / 10);
    }
    let d: usize = (n % 10) as usize;
    proof {
        reveal_strlit("0123456789");
    }
    text.append("0123456789".substring_char(d, d + 1));
}

/// Appends the decimal notation of `i` to `text`.
pub fn append_signed_decimal(text: &mut String, i: i32)
    ensures
        final(text)@ == old(text)@ + signed_decimal(i as int),
{
    if i < 0 {
        proof {
            reveal_strlit("-");
        }
        text.append("-");
        append_decimal(text, (-(i as i64)) as u64);
    } else {
        append_decimal(text, i as u64);
    }
}

/// The decimal notation of `n`.
pub fn decimal_text(n: u64) -> (text: String)
    ensures
        text@ == decimal(n as nat),
{
    let mut text = String::new();
    append_decimal(&mut text, n);
    text
}

/// The decimal notation of `i`.
pub fn signed_decimal_text(i: i32) -> (text: String)
    ensures
        text@ == signed_decimal(i as int),
{
    let mut text = String::new();
    append_signed_decimal(&mut text, i);
    text
}

} // verus!
