//! Device handle methods shared by all chip variants, and the hour-register
//! codec.

use vstd::prelude::*;
use crate::bcd::{bcd_decode, bcd_encode, decimal_to_packed_bcd, packed_bcd_to_decimal};
use crate::types::{hours_valid, Hours};
use crate::{bitflags, Error};

pub mod alarms;
pub mod configuration;
pub mod datetime;
pub mod status;

verus! {

/// Hour-register encoding of an hour value: plain BCD in 24-hour mode; in
/// 12-hour mode bit 6 is set and bit 5 distinguishes PM from AM.
pub open spec fn hours_encode(hours: Hours) -> u8 {
    match hours {
        Hours::H24(h) => bcd_encode(h),
        Hours::AM(h) => bitflags::H24_H12 | bcd_encode(h),
        Hours::PM(h) => bitflags::H24_H12 | bitflags::AM_PM | bcd_encode(h),
    }
}

/// Hour value held in an hour-register byte.
pub open spec fn hours_decode(data: u8) -> Hours {
    if data & bitflags::H24_H12 == 0 {
        Hours::H24(bcd_decode(data & !bitflags::H24_H12))
    } else if data & bitflags::AM_PM == 0 {
        Hours::AM(bcd_decode(data & !(bitflags::H24_H12 | bitflags::AM_PM)))
    } else {
        Hours::PM(bcd_decode(data & !(bitflags::H24_H12 | bitflags::AM_PM)))
    }
}

/// Encode an hour value for the hours register, rejecting a value outside
/// its variant's legal range.
pub fn hours_to_register<E>(hours: Hours) -> (r: Result<u8, Error<E>>)
    ensures
        hours_valid(hours) ==> r == Ok::<u8, Error<E>>(hours_encode(hours)),
        !hours_valid(hours) ==> r == Err::<u8, Error<E>>(Error::InvalidInputData),
{
    match hours {
        Hours::H24(h) if h > 23 => Err(Error::InvalidInputData),
        Hours::H24(h) => Ok(decimal_to_packed_bcd(h)),
        Hours::AM(h) if !(1 <= h && h <= 12) => Err(Error::InvalidInputData),
        Hours::AM(h) => Ok(bitflags::H24_H12 | decimal_to_packed_bcd(h)),
        Hours::PM(h) if !(1 <= h && h <= 12) => Err(Error::InvalidInputData),
        Hours::PM(h) => Ok(bitflags::H24_H12 | bitflags::AM_PM | decimal_to_packed_bcd(h)),
    }
}

/// Hour value held in an hour-register byte.
pub fn hours_from_register(data: u8) -> (r: Hours)
    ensures
        r == hours_decode(data),
{
    if is_24h_format(data) {
        Hours::H24(packed_bcd_to_decimal(data & !bitflags::H24_H12))
    } else if is_am(data) {
        Hours::AM(packed_bcd_to_decimal(data & !(bitflags::H24_H12 | bitflags::AM_PM)))
    } else {
        Hours::PM(packed_bcd_to_decimal(data & !(bitflags::H24_H12 | bitflags::AM_PM)))
    }
}

/// An hour-register byte selects 24-hour mode when bit 6 is clear.
pub fn is_24h_format(hours_data: u8) -> (r: bool)
    ensures
        r == (hours_data & bitflags::H24_H12 == 0),
{
    hours_data & bitflags::H24_H12 == 0
}

/// An hour-register byte in 12-hour mode selects AM when bit 5 is clear.
pub fn is_am(hours_data: u8) -> (r: bool)
    ensures
        r == (hours_data & bitflags::AM_PM == 0),
{
    hours_data & bitflags::AM_PM == 0
}

/// The hour of a 24-hour clock named by an hour value, counting a PM hour
/// twelve hours after the same AM hour.
pub open spec fn h24_of(hour: Hours) -> int {
    match hour {
        Hours::H24(h) => h as int,
        Hours::AM(h) => h as int,
        Hours::PM(h) => h + 12,
    }
}

/// Convert an hour value to the hour of a 24-hour clock.
pub fn get_h24(hour: Hours) -> (r: u8)
    requires
        h24_of(hour) <= 255,
    ensures
        r == h24_of(hour),
{
    match hour {
        Hours::H24(h) => h,
        Hours::AM(h) => h,
        Hours::PM(h) => h + 12,
    }
}

/// Unwrap a decoded field, reporting an uninitialized or corrupted chip as
/// an invalid device state.
pub fn some_or_invalid_error<T, E>(data: Option<T>) -> (r: Result<T, Error<E>>)
    ensures
        match data {
            Some(value) => r == Ok::<T, Error<E>>(value),
            None => r == Err::<T, Error<E>>(Error::InvalidDeviceState),
        },
{
    if let Some(data) = data {
        Ok(data)
    } else {
        Err(Error::InvalidDeviceState)
    }
}

/// Encoding any legal hour value and decoding the register byte reproduces
/// the exact variant and numeric value.
pub proof fn lemma_hours_roundtrip(hours: Hours)
    requires
        hours_valid(hours),
    ensures
        hours_decode(hours_encode(hours)) == hours,
{
    match hours {
        Hours::H24(h) => {
            assert(h <= 23 ==> {
                &&& bcd_encode(h) & bitflags::H24_H12 == 0
                &&& bcd_decode(bcd_encode(h) & !bitflags::H24_H12) == h
            }) by (bit_vector);
        }
        Hours::AM(h) => {
            assert(1 <= h <= 12 ==> {
                &&& (bitflags::H24_H12 | bcd_encode(h)) & bitflags::H24_H12 != 0
                &&& (bitflags::H24_H12 | bcd_encode(h)) & bitflags::AM_PM == 0
                &&& bcd_decode((bitflags::H24_H12 | bcd_encode(h)) & !(bitflags::H24_H12
                    | bitflags::AM_PM)) == h
            }) by (bit_vector);
        }
        Hours::PM(h) => {
            assert(1 <= h <= 12 ==> {
                &&& (bitflags::H24_H12 | bitflags::AM_PM | bcd_encode(h)) & bitflags::H24_H12 != 0
                &&& (bitflags::H24_H12 | bitflags::AM_PM | bcd_encode(h)) & bitflags::AM_PM != 0
                &&& bcd_decode((bitflags::H24_H12 | bitflags::AM_PM | bcd_encode(h))
                    & !(bitflags::H24_H12 | bitflags::AM_PM)) == h
            }) by (bit_vector);
        }
    }
}

} // verus!
