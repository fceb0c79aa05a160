//! Bit flags of the control, status and time registers.

use vstd::prelude::*;

verus! {

/// Hours register: set selects 12-hour mode, clear selects 24-hour mode
pub const H24_H12: u8 = 0b0100_0000;
/// Hours register, 12-hour mode: set means PM, clear means AM
pub const AM_PM: u8 = 0b0010_0000;
/// Month register: set means the year lies in the 2100 century
pub const CENTURY: u8 = 0b1000_0000;
/// Control register: oscillator disabled when battery-powered
pub const EOSC: u8 = 0b1000_0000;
/// Control register: battery-backed square-wave generation
pub const BBSQW: u8 = 0b0100_0000;
/// Control register: temperature conversion in progress / force one
pub const TEMP_CONV: u8 = 0b0010_0000;
/// Control register: square-wave frequency select, high bit
pub const RS2: u8 = 0b0001_0000;
/// Control register: square-wave frequency select, low bit
pub const RS1: u8 = 0b0000_1000;
/// Control register: INT/SQW pin drives interrupts rather than a square wave
pub const INTCN: u8 = 0b0000_0100;
/// Control register: Alarm2 interrupt enable
pub const ALARM2_INT_EN: u8 = 0b0000_0010;
/// Control register: Alarm1 interrupt enable
pub const ALARM1_INT_EN: u8 = 0b0000_0001;
/// Status register: the oscillator is stopped or has been stopped
pub const OSC_STOP: u8 = 0b1000_0000;
/// Status register: 32kHz output enabled when battery-powered
pub const BB32KHZ: u8 = 0b0100_0000;
/// Status register: temperature-conversion-rate select, high bit
pub const CRATE1: u8 = 0b0010_0000;
/// Status register: temperature-conversion-rate select, low bit
pub const CRATE0: u8 = 0b0001_0000;
/// Status register: 32kHz output enable
pub const EN32KHZ: u8 = 0b0000_1000;
/// Status register: device busy executing TCXO functions
pub const BUSY: u8 = 0b0000_0100;
/// Status register: sticky Alarm2-match flag, cleared only by software
pub const ALARM2F: u8 = 0b0000_0010;
/// Status register: sticky Alarm1-match flag, cleared only by software
pub const ALARM1F: u8 = 0b0000_0001;
/// Temperature-conversion-rate register: disable conversions on battery
pub const TEMP_CONV_BAT: u8 = 0b0000_0001;
/// Alarm registers: set means the chip ignores this field when matching
pub const ALARM_MATCH: u8 = 0b1000_0000;
/// Alarm day register: compare against the weekday, not the day of month
pub const WEEKDAY: u8 = 0b0100_0000;

} // verus!
