//! The raw form of the values that need an encoding of their own: a
//! boolean and the discriminants of optional and fallible values cross
//! the boundary as one byte, and a 64-bit integer that is returned on the
//! 32-bit linear-memory target crosses as two 32-bit halves. Every other
//! number crosses as it is.

use vstd::prelude::*;

verus! {

/// The discriminant of an absent optional value.
pub const ABSENT: u8 = 0;

/// The discriminant of a present optional value.
pub const PRESENT: u8 = 1;

/// The discriminant of a fallible value that holds an error.
pub const FAILED: u8 = 0;

/// The discriminant of a fallible value that holds a payload.
pub const SUCCEEDED: u8 = 1;

/// The number of values of 32 bits.
pub const HALF: u64 = 0x1_0000_0000;

/// The byte of a boolean: one for true, zero for false.
pub open spec fn spec_lower_bool(value: bool) -> u8 {
    if value {
        1
    } else {
        0
    }
}

/// The boolean of a byte: true for every byte but zero.
pub open spec fn spec_lift_bool(raw: u8) -> bool {
    raw > 0
}

/// Returns the byte of a boolean.
pub fn lower_bool(value: bool) -> (raw: u8)
    ensures
        raw == spec_lower_bool(value),
{
    if value {
        1
    } else {
        0
    }
}

/// Returns the boolean of a byte.
pub fn lift_bool(raw: u8) -> (value: bool)
    ensures
        value == spec_lift_bool(raw),
{
    raw > 0
}

/// The discriminant of an optional value.
pub open spec fn spec_lower_option(present: bool) -> u8 {
    if present {
        PRESENT
    } else {
        ABSENT
    }
}

/// Whether a discriminant stands for a present optional value: every
/// byte but [`ABSENT`] does.
pub open spec fn spec_lift_option(raw: u8) -> bool {
    raw != ABSENT
}

/// Returns the discriminant of an optional value.
pub fn lower_option(present: bool) -> (raw: u8)
    ensures
        raw == spec_lower_option(present),
{
    if present {
        PRESENT
    } else {
        ABSENT
    }
}

/// Tells whether a discriminant stands for a present optional value.
pub fn lift_option(raw: u8) -> (present: bool)
    ensures
        present == spec_lift_option(raw),
{
    raw != ABSENT
}

/// The discriminant of a fallible value.
pub open spec fn spec_lower_result(ok: bool) -> u8 {
    if ok {
        SUCCEEDED
    } else {
        FAILED
    }
}

/// Whether a discriminant stands for a payload: every byte but
/// [`FAILED`] does.
pub open spec fn spec_lift_result(raw: u8) -> bool {
    raw != FAILED
}

/// Returns the discriminant of a fallible value.
pub fn lower_result(ok: bool) -> (raw: u8)
    ensures
        raw == spec_lower_result(ok),
{
    if ok {
        SUCCEEDED
    } else {
        FAILED
    }
}

/// Tells whether a discriminant stands for a payload.
pub fn lift_result(raw: u8) -> (ok: bool)
    ensures
        ok == spec_lift_result(raw),
{
    raw != FAILED
}

/// The low and the high half of a 64-bit number.
pub open spec fn spec_split(value: u64) -> (u32, u32) {
    ((value % HALF) as u32, (value / HALF) as u32)
}

/// The 64-bit number of a low and a high half.
pub open spec fn spec_join(low: u32, high: u32) -> u64 {
    (high * HALF + low) as u64
}

/// Splits a 64-bit number into its low and its high half.
pub fn split(value: u64) -> (halves: (u32, u32))
    ensures
        halves == spec_split(value),
{
    let low = value & 0xffff_ffff;
    let high = value >> 32;
    assert(low == value % 0x1_0000_0000 && high == value / 0x1_0000_0000 && low <= 0xffff_ffff
        && high <= 0xffff_ffff) by (bit_vector)
        requires
            low == value & 0xffff_ffff,
            high == value >> 32,
    ;
    (low as u32, high as u32)
}

/// Joins a low and a high half to a 64-bit number.
pub fn join(low: u32, high: u32) -> (value: u64)
    ensures
        value == spec_join(low, high),
{
    let wide_low = low as u64;
    let wide_high = high as u64;
    let value = (wide_high << 32) | wide_low;
    assert(value == wide_high * 0x1_0000_0000 + wide_low) by (bit_vector)
        requires
            value == (wide_high << 32) | wide_low,
            wide_low <= 0xffff_ffff,
            wide_high <= 0xffff_ffff,
    ;
    value
}

/// The bits of a signed 64-bit number, read as an unsigned one.
pub open spec fn spec_bits(value: i64) -> u64 {
    if value < 0 {
        (value + 0x1_0000_0000_0000_0000) as u64
    } else {
        value as u64
    }
}

/// The signed 64-bit number that has the given bits.
pub open spec fn spec_signed(bits: u64) -> i64 {
    if bits >= 0x8000_0000_0000_0000 {
        (bits - 0x1_0000_0000_0000_0000) as i64
    } else {
        bits as i64
    }
}

/// Reads the bits of a signed 64-bit number as an unsigned one.
pub fn bits(value: i64) -> (res: u64)
    ensures
        res == spec_bits(value),
{
    if value < 0 {
        let above = (value + i64::MAX + 1) as u64;
        above + 0x8000_0000_0000_0000
    } else {
        value as u64
    }
}

/// Reads bits as a signed 64-bit number.
pub fn signed(bits: u64) -> (res: i64)
    ensures
        res == spec_signed(bits),
{
    if bits >= 0x8000_0000_0000_0000 {
        let above = (bits - 0x8000_0000_0000_0000) as i64;
        above - i64::MAX - 1
    } else {
        bits as i64
    }
}

/// A boolean that is lowered and lifted is the same boolean.
pub proof fn bool_round_trip(value: bool)
    ensures
        spec_lift_bool(spec_lower_bool(value)) == value,
{
}

/// The discriminant of an optional value tells again whether the value is
/// present, and the discriminant of a fallible value tells again whether it
/// holds a payload.
pub proof fn discriminant_round_trip(flag: bool)
    ensures
        spec_lift_option(spec_lower_option(flag)) == flag,
        spec_lift_result(spec_lower_result(flag)) == flag,
{
}

/// A 64-bit number that is split and joined is the same number, and two
/// halves that are joined and split are the same halves.
pub proof fn split_round_trip(value: u64, low: u32, high: u32)
    ensures
        spec_join(spec_split(value).0, spec_split(value).1) == value,
        spec_split(spec_join(low, high)) == (low, high),
{
}

/// A signed 64-bit number is found again from its bits, and so it crosses
/// in two halves as an unsigned one does.
pub proof fn signed_round_trip(value: i64)
    ensures
        spec_signed(spec_bits(value)) == value,
        spec_signed(
            spec_join(spec_split(spec_bits(value)).0, spec_split(spec_bits(value)).1),
        ) == value,
{
    split_round_trip(spec_bits(value), 0, 0);
}

} // verus!
