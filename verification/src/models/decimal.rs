//! Whole numbers written out in decimal, as an error message shows them.

use vstd::prelude::*;

verus! {

/// The ten digits, in order.
pub open spec fn digits() -> Seq<char> {
    "0123456789"@
}

/// A natural number in decimal: its digits, the most significant first, with
/// no leading zero but for zero itself.
pub open spec fn decimal_nat(n: nat) -> Seq<char>
    decreases n,
{
    if n < 10 {
        seq![digits()[n as int]]
    } else {
        decimal_nat(n / 10).push(digits()[(n % 10) as int])
    }
}

/// An integer in decimal: a minus sign where it is negative, then its
/// magnitude.
pub open spec fn decimal(n: int) -> Seq<char> {
    if n < 0 {
        seq!['-'] + decimal_nat((-n) as nat)
    } else {
        decimal_nat(n as nat)
    }
}

/// Writes `n` in decimal at the end of `out`.
fn push_decimal(out: &mut String, n: u32)
    ensures
        final(out)@ == old(out)@ + decimal_nat(n as nat),
    decreases n,
{
    if n >= 10 {
        push_decimal(out, n / 10);
    }
    let all = "0123456789";
    let last: usize = (n % 10) as usize;
    proof {
        reveal_strlit("0123456789");
    }
    out.append(all.substring_ascii(last, last + 1));
}

/// `n` in decimal.
pub fn decimal_of(n: i32) -> (text: String)
    ensures
        text@ == decimal(n as int),
{
    let mut text = String::new();
    let wide: i64 = n as i64;
    if wide < 0 {
        proof {
            reveal_strlit("-");
        }
        text.append("-");
        push_decimal(&mut text, (-wide) as u32);
    } else {
        push_decimal(&mut text, wide as u32);
    }
    text
}

} // verus!
