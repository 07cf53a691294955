//! Floating-point configuration values.
//!
//! A value is held by its IEEE 754 binary64 bit pattern, which decides how it
//! compares, and by the text Rust's `Display` renders for it, which the
//! validation messages quote. Comparisons follow IEEE 754: a NaN is unordered,
//! `-0.0 == 0.0`, and otherwise values order by sign and magnitude.
use vstd::prelude::*;

verus! {

/// The sign bit of a binary64 pattern.
pub const SIGN_BIT: u64 = 0x8000_0000_0000_0000;

/// The pattern of positive infinity; magnitudes above it are NaNs.
pub const INFINITY_BITS: u64 = 0x7ff0_0000_0000_0000;

/// `0.0`
pub const ZERO_BITS: u64 = 0;

/// `1.0`
pub const ONE_BITS: u64 = 0x3ff0_0000_0000_0000;

/// A floating-point configuration value.
#[derive(Debug)]
pub struct ConfigFloat {
    /// The IEEE 754 binary64 bit pattern (`f64::to_bits`).
    pub bits: u64,
    /// The value as Rust's `Display` renders it (`format!("{}", v)`).
    pub text: String,
}

/// The magnitude part (all bits but the sign) of a pattern.
pub open spec fn magnitude(b: u64) -> int {
    (b as int) % (SIGN_BIT as int)
}

/// The sign bit is set.
pub open spec fn sign_set(b: u64) -> bool {
    b >= SIGN_BIT
}

/// The pattern encodes a NaN.
pub open spec fn is_nan_bits(b: u64) -> bool {
    magnitude(b) > INFINITY_BITS as int
}

/// The pattern encodes a finite number (neither infinite nor NaN).
pub open spec fn is_finite_bits(b: u64) -> bool {
    magnitude(b) < INFINITY_BITS as int
}

/// An integer that orders the non-NaN patterns as their values order.
pub open spec fn order_key(b: u64) -> int {
    if sign_set(b) { -magnitude(b) } else { magnitude(b) }
}

/// IEEE `a < b`.
pub open spec fn lt_bits(a: u64, b: u64) -> bool {
    !is_nan_bits(a) && !is_nan_bits(b) && order_key(a) < order_key(b)
}

/// IEEE `a <= b`.
pub open spec fn le_bits(a: u64, b: u64) -> bool {
    !is_nan_bits(a) && !is_nan_bits(b) && order_key(a) <= order_key(b)
}

/// `lo <= x && x <= hi`, as `RangeInclusive::contains` decides it.
pub open spec fn within_bits(x: u64, lo: u64, hi: u64) -> bool {
    le_bits(lo, x) && le_bits(x, hi)
}

fn magnitude_of(b: u64) -> (m: u64)
    ensures
        m == magnitude(b),
        m < SIGN_BIT,
{
    b % SIGN_BIT
}

/// Whether the pattern encodes a NaN.
pub fn is_nan(b: u64) -> (r: bool)
    ensures
        r == is_nan_bits(b),
{
    magnitude_of(b) > INFINITY_BITS
}

/// Whether the pattern encodes a finite number (`f64::is_finite`).
pub fn is_finite(b: u64) -> (r: bool)
    ensures
        r == is_finite_bits(b),
{
    magnitude_of(b) < INFINITY_BITS
}

/// Compares two non-NaN patterns by value: `Less` is -1, `Equal` 0, `Greater` 1.
fn compare_keys(a: u64, b: u64) -> (r: i8)
    ensures
        r == -1 <==> order_key(a) < order_key(b),
        r == 0 <==> order_key(a) == order_key(b),
        r == 1 <==> order_key(a) > order_key(b),
{
    let ma = magnitude_of(a);
    let mb = magnitude_of(b);
    let na = a >= SIGN_BIT;
    let nb = b >= SIGN_BIT;
    if !na && !nb {
        if ma < mb { -1 } else if ma == mb { 0 } else { 1 }
    } else if na && nb {
        if ma > mb { -1 } else if ma == mb { 0 } else { 1 }
    } else if na {
        if ma == 0 && mb == 0 { 0 } else { -1 }
    } else {
        if ma == 0 && mb == 0 { 0 } else { 1 }
    }
}

/// IEEE `a < b` on bit patterns.
pub fn lt(a: u64, b: u64) -> (r: bool)
    ensures
        r == lt_bits(a, b),
{
    !is_nan(a) && !is_nan(b) && compare_keys(a, b) == -1
}

/// IEEE `a <= b` on bit patterns.
pub fn le(a: u64, b: u64) -> (r: bool)
    ensures
        r == le_bits(a, b),
{
    !is_nan(a) && !is_nan(b) && compare_keys(a, b) != 1
}

/// `(lo..=hi).contains(&x)` on bit patterns.
pub fn within(x: u64, lo: u64, hi: u64) -> (r: bool)
    ensures
        r == within_bits(x, lo, hi),
{
    le(lo, x) && le(x, hi)
}

impl Clone for ConfigFloat {
    fn clone(&self) -> (r: Self)
        ensures
            r == *self,
    {
        ConfigFloat { bits: self.bits, text: self.text.clone() }
    }
}

impl ConfigFloat {
    /// A value from its bit pattern and its display text.
    pub fn from_parts(bits: u64, text: &str) -> (f: ConfigFloat)
        ensures
            f.bits == bits,
            f.text@ == text@,
    {
        ConfigFloat { bits, text: text.to_owned() }
    }
}

} // verus!
