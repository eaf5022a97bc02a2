//! The status text shown while a rectangle is dragged.

use vstd::prelude::*;

verus! {

pub open spec fn digit_char(d: nat) -> char {
    if d == 0 { '0' }
    else if d == 1 { '1' }
    else if d == 2 { '2' }
    else if d == 3 { '3' }
    else if d == 4 { '4' }
    else if d == 5 { '5' }
    else if d == 6 { '6' }
    else if d == 7 { '7' }
    else if d == 8 { '8' }
    else { '9' }
}

/// The decimal digits of `n`, most significant first, without leading zeros.
pub open spec fn decimal(n: nat) -> Seq<char>
    decreases n,
{
    if n < 10 {
        seq![digit_char(n)]
    } else {
        decimal(n / 10).push(digit_char(n % 10))
    }
}

/// `"<width> x <height>"`, both in decimal.
pub open spec fn size_text(w: nat, h: nat) -> Seq<char> {
    decimal(w) + seq![' ', 'x', ' '] + decimal(h)
}

/// Relies on `<u64 as ToString>::to_string`: plain decimal digits, no
/// leading zeros, `0` for zero.
#[verifier::external_body]
fn decimal_text(n: u64) -> (r: String)
    ensures
        r@ == decimal(n as nat),
{
    n.to_string()
}

/// The status text of a `w` by `h` drag.
pub(crate) fn size_label(w: u64, h: u64) -> (r: String)
    ensures
        r@ == size_text(w as nat, h as nat),
{
    let mut s = decimal_text(w);
    s.append(" x ");
    let t = decimal_text(h);
    s.append(t.as_str());
    proof {
        reveal_strlit(" x ");
    }
    s
}

} // verus!
