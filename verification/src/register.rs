//! Register addresses of the chip family's shared register map.

use vstd::prelude::*;

verus! {

/// Seconds register
pub const SECONDS: u8 = 0x00;
/// Minutes register
pub const MINUTES: u8 = 0x01;
/// Hours register
pub const HOURS: u8 = 0x02;
/// Day-of-week register
pub const DOW: u8 = 0x03;
/// Day-of-month register
pub const DOM: u8 = 0x04;
/// Month register; its top bit is the century flag
pub const MONTH: u8 = 0x05;
/// Year register
pub const YEAR: u8 = 0x06;
/// First register of the four-register Alarm1 span
pub const ALARM1_SECONDS: u8 = 0x07;
/// First register of the three-register Alarm2 span
pub const ALARM2_MINUTES: u8 = 0x0B;
/// Control register
pub const CONTROL: u8 = 0x0E;
/// Status register
pub const STATUS: u8 = 0x0F;
/// Aging-offset register
pub const AGING_OFFSET: u8 = 0x10;
/// Temperature most-significant byte; the LSB follows it
pub const TEMP_MSB: u8 = 0x11;
/// Temperature-conversion-rate control register (DS3234 only)
pub const TEMP_CONV: u8 = 0x13;

} // verus!
