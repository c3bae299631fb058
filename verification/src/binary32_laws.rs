//! What the bit patterns mean: sign, exponent and fraction of IEEE 754.

use crate::binary32::{equal, finite, finite_reading, in_unit_interval, number, same, zero};
use vstd::prelude::*;

verus! {

/// The bit pattern with the sign, the biased exponent and the fraction.
pub open spec fn composed(negative: bool, exponent: int, fraction: int) -> int {
    (if negative {
        0x8000_0000int
    } else {
        0
    }) + exponent * 0x80_0000 + fraction
}

/// A pattern is finite exactly if its exponent is not the largest one, and no
/// number exactly if it has the largest exponent and a fraction.
pub proof fn law_the_largest_exponent_is_not_finite(
    bits: u32,
    negative: bool,
    exponent: int,
    fraction: int,
)
    requires
        0 <= exponent <= 255,
        0 <= fraction < 0x80_0000,
        bits == composed(negative, exponent, fraction),
    ensures
        finite(bits) <==> exponent < 255,
        number(bits) <==> exponent < 255 || fraction == 0,
        zero(bits) <==> exponent == 0 && fraction == 0,
{
}

/// Two finite patterns are one number exactly if their signs, exponents and
/// fractions are the same, or both are zero. What is no number equals nothing.
pub proof fn law_numbers_have_one_pattern_but_zero_has_two(
    a: u32,
    b: u32,
    negative: bool,
    exponent: int,
    fraction: int,
    other_negative: bool,
    other_exponent: int,
    other_fraction: int,
)
    requires
        0 <= exponent <= 255 && 0 <= other_exponent <= 255,
        0 <= fraction < 0x80_0000 && 0 <= other_fraction < 0x80_0000,
        a == composed(negative, exponent, fraction),
        b == composed(other_negative, other_exponent, other_fraction),
    ensures
        same(a, b) <==> exponent == other_exponent && fraction == other_fraction && (negative
            == other_negative || exponent == 0 && fraction == 0),
        equal(a, b) <==> same(a, b) && (exponent < 255 || fraction == 0),
{
}

/// A number lies between zero and one exactly if it is zero or has no sign and
/// an exponent below that of one, or is one itself.
pub proof fn law_the_unit_interval_ends_at_one(
    bits: u32,
    negative: bool,
    exponent: int,
    fraction: int,
)
    requires
        0 <= exponent <= 255,
        0 <= fraction < 0x80_0000,
        bits == composed(negative, exponent, fraction),
    ensures
        in_unit_interval(bits) <==> {
            ||| exponent == 0 && fraction == 0
            ||| !negative && exponent < 127
            ||| !negative && exponent == 127 && fraction == 0
        },
{
}

/// A reading counts exactly if there is one and it is finite, and then it is
/// taken as it is.
pub proof fn law_finite_readings_are_taken_as_they_are(
    readings: Seq<Option<u32>>,
    index: int,
    bits: u32,
)
    ensures
        finite_reading(readings, index) == Some(bits) <==> 0 <= index < readings.len()
            && readings[index] == Some(bits) && finite(bits),
{
}

} // verus!
