//! Ordering of IEEE-754 doubles, read from their 64-bit patterns.
use vstd::prelude::*;

verus! {

/// The sign bit of a double.
pub const SIGN_BIT: u64 = 0x8000_0000_0000_0000;

/// The bit pattern of positive infinity: every exponent bit set, no mantissa.
pub const INFINITY_BITS: u64 = 0x7ff0_0000_0000_0000;

/// The bit pattern of `1.0`.
pub const ONE_BITS: u64 = 0x3ff0_0000_0000_0000;

/// Width of the mantissa field.
pub const MANTISSA_SPAN: u64 = 0x10_0000_0000_0000;

/// The pattern with its sign bit cleared (the absolute value).
pub open spec fn magnitude(b: u64) -> u64 {
    if b >= SIGN_BIT { (b - SIGN_BIT) as u64 } else { b }
}

pub open spec fn is_nan(b: u64) -> bool {
    magnitude(b) > INFINITY_BITS
}

/// Position of the value on the real line: the pattern of a non-negative double
/// grows with its value, and a negative one mirrors it; both zeros sit at 0.
pub open spec fn order_key(b: u64) -> int {
    if b >= SIGN_BIT { -(magnitude(b) as int) } else { b as int }
}

/// `a < b` as IEEE-754 defines it: false whenever either side is NaN.
pub open spec fn lt(a: u64, b: u64) -> bool {
    !is_nan(a) && !is_nan(b) && order_key(a) < order_key(b)
}

/// `a <= b` in the sense of "not larger": equal patterns, or strictly less.
pub open spec fn not_above(a: u64, b: u64) -> bool {
    a == b || lt(a, b)
}

/// `b > 0.0`.
pub open spec fn is_positive(b: u64) -> bool {
    !is_nan(b) && order_key(b) > 0
}

/// The biased exponent field.
pub open spec fn exponent(b: u64) -> int {
    magnitude(b) as int / MANTISSA_SPAN as int
}

/// Strict comparison is transitive.
pub proof fn lemma_lt_transitive(a: u64, b: u64, c: u64)
    requires
        lt(a, b),
        lt(b, c),
    ensures
        lt(a, c),
{
}

/// `not_above` is transitive, so a chain of non-increasing steps never climbs.
pub proof fn lemma_not_above_transitive(a: u64, b: u64, c: u64)
    requires
        not_above(a, b),
        not_above(b, c),
    ensures
        not_above(a, c),
{
}

/// Clears the sign bit.
pub fn abs_bits(b: u64) -> (r: u64)
    ensures
        r == magnitude(b),
{
    if b >= SIGN_BIT { b - SIGN_BIT } else { b }
}

/// The IEEE-754 `<` on two doubles given by their bit patterns.
pub fn float_lt(a: u64, b: u64) -> (r: bool)
    ensures
        r == lt(a, b),
{
    let ma = abs_bits(a);
    let mb = abs_bits(b);
    if ma > INFINITY_BITS || mb > INFINITY_BITS {
        return false;
    }
    let a_neg = a >= SIGN_BIT;
    let b_neg = b >= SIGN_BIT;
    if a_neg && b_neg {
        mb < ma
    } else if a_neg {
        !(ma == 0 && b == 0)
    } else if b_neg {
        false
    } else {
        a < b
    }
}

/// `b > 0.0` on a bit pattern.
pub fn float_is_positive(b: u64) -> (r: bool)
    ensures
        r == is_positive(b),
{
    b > 0 && b <= INFINITY_BITS
}

} // verus!
