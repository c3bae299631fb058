//! Single-precision numbers, carried as their IEEE 754 bit patterns.
//!
//! The upper bit is the sign. The remaining bits, the magnitude, order the
//! numbers of one sign; from `0x7f80_0000` on they stand for infinity and for
//! values that are no number.

use vstd::prelude::*;

verus! {

/// The bit pattern of one.
pub const ONE: u32 = 0x3f80_0000;

/// The bit pattern of zero.
pub const ZERO: u32 = 0;

/// The bits without the sign.
pub open spec fn magnitude(bits: u32) -> int {
    bits as int % 0x8000_0000
}

/// Whether the pattern is a number other than infinity.
pub open spec fn finite(bits: u32) -> bool {
    magnitude(bits) < 0x7f80_0000
}

/// Whether the pattern is zero, of either sign.
pub open spec fn zero(bits: u32) -> bool {
    magnitude(bits) == 0
}

/// Whether two finite patterns are the same number: zero has two patterns,
/// every other number one.
pub open spec fn same(a: u32, b: u32) -> bool {
    a == b || zero(a) && zero(b)
}

/// Whether the pattern is a number, be it infinity.
pub open spec fn number(bits: u32) -> bool {
    magnitude(bits) <= 0x7f80_0000
}

/// Whether two patterns are equal as numbers. What is no number equals nothing,
/// not even itself.
pub open spec fn equal(a: u32, b: u32) -> bool {
    number(a) && number(b) && same(a, b)
}

/// Whether the pattern is a number from zero up to `limit`, which is a
/// positive number.
pub open spec fn between_zero_and(bits: u32, limit: u32) -> bool {
    zero(bits) || bits <= limit
}

/// Whether the pattern is a number from zero up to one.
pub open spec fn in_unit_interval(bits: u32) -> bool {
    between_zero_and(bits, ONE)
}

pub fn is_finite(bits: u32) -> (answer: bool)
    ensures
        answer == finite(bits),
{
    bits % 0x8000_0000 < 0x7f80_0000
}

pub fn is_zero(bits: u32) -> (answer: bool)
    ensures
        answer == zero(bits),
{
    bits % 0x8000_0000 == 0
}

pub fn is_same(a: u32, b: u32) -> (answer: bool)
    ensures
        answer == same(a, b),
{
    a == b || is_zero(a) && is_zero(b)
}

pub fn is_equal(a: u32, b: u32) -> (answer: bool)
    ensures
        answer == equal(a, b),
{
    a % 0x8000_0000 <= 0x7f80_0000 && b % 0x8000_0000 <= 0x7f80_0000 && is_same(a, b)
}

pub fn is_in_unit_interval(bits: u32) -> (answer: bool)
    ensures
        answer == in_unit_interval(bits),
{
    is_zero(bits) || bits <= ONE
}

/// What reading each parameter of a message as a single-precision number gave:
/// the number's bit pattern, or nothing where the text is no number. A missing
/// entry is nothing too.
pub open spec fn reading(readings: Seq<Option<u32>>, index: int) -> Option<u32> {
    if 0 <= index < readings.len() {
        readings[index]
    } else {
        None
    }
}

/// The finite number that was read from parameter `index`.
pub open spec fn finite_reading(readings: Seq<Option<u32>>, index: int) -> Option<u32> {
    match reading(readings, index) {
        Some(bits) => if finite(bits) {
            Some(bits)
        } else {
            None
        },
        None => None,
    }
}

pub fn read_finite(readings: &[Option<u32>], index: usize) -> (found: Option<u32>)
    ensures
        found == finite_reading(readings@, index as int),
{
    if index >= readings.len() {
        return None;
    }
    match readings[index] {
        Some(bits) => if is_finite(bits) {
            Some(bits)
        } else {
            None
        },
        None => None,
    }
}

} // verus!
