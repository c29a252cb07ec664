//! Decimal rendering of Bitcoin amounts.
//!
//! A payment URI carries its amount in whole bitcoin with an eight-digit
//! fractional part, while the rest of the crate counts satoshis. The
//! functions here render a satoshi count as that decimal string, pinned
//! character by character by the spec functions.

use vstd::prelude::*;

verus! {

/// Satoshis per bitcoin: the divisor between the two units.
pub const SATS_PER_BTC: u64 = 100_000_000;

/// The ASCII digit for a value below ten.
pub open spec fn digit_char(d: int) -> char {
    if d == 0 {
        '0'
    } else if d == 1 {
        '1'
    } else if d == 2 {
        '2'
    } else if d == 3 {
        '3'
    } else if d == 4 {
        '4'
    } else if d == 5 {
        '5'
    } else if d == 6 {
        '6'
    } else if d == 7 {
        '7'
    } else if d == 8 {
        '8'
    } else {
        '9'
    }
}

/// The ordinary decimal rendering of `n`, without leading zeros
/// (a single `'0'` for zero itself).
pub open spec fn dec_chars(n: nat) -> Seq<char>
    decreases n,
{
    if n < 10 {
        seq![digit_char(n as int)]
    } else {
        dec_chars(n / 10) + seq![digit_char((n % 10) as int)]
    }
}

/// The decimal rendering of `n` padded with leading zeros to exactly
/// `w` digits; digits beyond `w` are cut off.
pub open spec fn dec_chars_padded(n: nat, w: nat) -> Seq<char>
    decreases w,
{
    if w == 0 {
        Seq::empty()
    } else {
        dec_chars_padded(n / 10, (w - 1) as nat) + seq![digit_char((n % 10) as int)]
    }
}

/// A satoshi count rendered in whole bitcoin: the integer part, a point,
/// and the eight-digit fractional part.
pub open spec fn btc_chars(sats: nat) -> Seq<char> {
    dec_chars(sats / (SATS_PER_BTC as nat)) + seq!['.'] + dec_chars_padded(
        sats % (SATS_PER_BTC as nat),
        8,
    )
}

/// Appends one decimal digit to `s`.
fn push_digit(s: &mut String, d: u64)
    requires
        d < 10,
    ensures
        final(s)@ == old(s)@ + seq![digit_char(d as int)],
{
    let digit: &str = match d {
        0 => "0",
        1 => "1",
        2 => "2",
        3 => "3",
        4 => "4",
        5 => "5",
        6 => "6",
        7 => "7",
        8 => "8",
        _ => "9",
    };
    proof {
        reveal_strlit("0");
        reveal_strlit("1");
        reveal_strlit("2");
        reveal_strlit("3");
        reveal_strlit("4");
        reveal_strlit("5");
        reveal_strlit("6");
        reveal_strlit("7");
        reveal_strlit("8");
        reveal_strlit("9");
        assert(digit@ =~= seq![digit_char(d as int)]);
    }
    s.append(digit);
}

/// Appends the unpadded decimal rendering of `n` to `s`.
fn push_dec(s: &mut String, n: u64)
    ensures
        final(s)@ == old(s)@ + dec_chars(n as nat),
    decreases n,
{
    if n >= 10 {
        push_dec(s, n / 10);
    }
    push_digit(s, n % 10);
}

/// Appends the decimal rendering of `n`, zero-padded to `w` digits, to `s`.
fn push_dec_padded(s: &mut String, n: u64, w: u64)
    ensures
        final(s)@ == old(s)@ + dec_chars_padded(n as nat, w as nat),
    decreases w,
{
    if w > 0 {
        push_dec_padded(s, n / 10, w - 1);
        push_digit(s, n % 10);
    }
}

/// Renders a satoshi count in whole bitcoin, e.g. fifty thousand satoshis
/// as `0.00050000`.
pub fn format_btc_amount(sats: u64) -> (r: String)
    ensures
        r@ == btc_chars(sats as nat),
{
    let mut s = String::new();
    push_dec(&mut s, sats / SATS_PER_BTC);
    proof {
        reveal_strlit(".");
        assert("."@ =~= seq!['.']);
    }
    s.append(".");
    push_dec_padded(&mut s, sats % SATS_PER_BTC, 8);
    s
}

} // verus!
