//! Whole numbers as they are written in decimal digits.

use vstd::prelude::*;

verus! {

/// The digit for `value`, which is from 0 to 9.
pub open spec fn digit(value: int) -> char {
    seq!['0', '1', '2', '3', '4', '5', '6', '7', '8', '9'][value]
}

/// `n` in decimal digits, the first of them not a zero unless `n` is zero.
pub open spec fn decimal(n: nat) -> Seq<char>
    decreases n,
{
    if n < 10 {
        seq![digit(n as int)]
    } else {
        decimal(n / 10).push(digit((n % 10) as int))
    }
}

/// `n` in decimal digits, with zeros before them where there are fewer than
/// `width`.
pub open spec fn zero_padded(n: nat, width: nat) -> Seq<char> {
    let digits = decimal(n);
    if digits.len() < width {
        Seq::new((width - digits.len()) as nat, |i: int| '0') + digits
    } else {
        digits
    }
}

/// `n` in decimal digits with a minus sign before them if it is negative,
/// and zeros between sign and digits where sign and digits together are
/// fewer than `width`.
pub open spec fn signed_zero_padded(n: int, width: nat) -> Seq<char> {
    if n < 0 {
        seq!['-'] + zero_padded((-n) as nat, if width >= 1 { (width - 1) as nat } else { 0 })
    } else {
        zero_padded(n as nat, width)
    }
}

} // verus!
