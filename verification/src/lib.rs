//! Register-level driver logic for the DS3231, DS3232 and DS3234
//! real-time clocks.
//!
//! The three chips share one register map: binary-coded-decimal time and
//! date registers, two alarm channels, a control byte and a status byte.
//! This crate holds the encoding, decoding and validation rules for those
//! registers, together with a device handle that issues reads and writes
//! through a bus-agnostic transport abstraction.
//!
//! Every operation is specified over a ghost model of the chip: a register
//! file and the history of bus operations issued so far. [`MemInterface`]
//! is a transport backed by an in-memory register file that records that
//! history at run time; bus-specific backends live outside this crate and
//! implement the same [`ReadData`] and [`WriteData`] traits.

use vstd::prelude::*;
use core::marker::PhantomData;

pub mod bcd;
pub mod bitflags;
pub mod ds323x;
pub mod ic;
pub mod interface;
pub mod mem_interface;
pub mod register;

mod ds3231;
mod ds3232;
mod ds3234;
mod private;
mod types;
mod wrapper;

pub use bcd::{bcd_decode, bcd_encode, decimal_to_packed_bcd, lemma_bcd_roundtrip,
    packed_bcd_to_decimal};
pub use ds323x::alarms::{amend_hour, get_matching_mask_alarm1, get_matching_mask_alarm2,
    is_hour_valid, Alarm1Matching, Alarm2Matching, DayAlarm1, DayAlarm2, WeekdayAlarm1,
    WeekdayAlarm2};
pub use ds323x::datetime::{date_from_register_bytes, datetime_from_register_bytes,
    month_year_to_registers, time_from_register_bytes, year_from_registers};
pub use ds323x::status::temperature_from_registers;
pub use ds323x::{get_h24, hours_from_register, hours_to_register, is_24h_format, is_am,
    some_or_invalid_error};
pub use interface::{spi_frame_write, spi_unframe_read, BusOp, ReadData, Transport, WriteData,
    REGISTER_COUNT};
pub use mem_interface::{LogEntry, MemInterface};
pub use private::Sealed;
pub use wrapper::{Ds323xWrapper, WrapperError};
pub use types::{date_valid, datetime_valid, hours_valid, time_valid, Date, DateTime, Hours, Time};

verus! {

/// All possible errors in this crate
#[derive(Debug)]
pub enum Error<E> {
    /// Bus communication error
    Comm(E),
    /// Invalid input data provided
    InvalidInputData,
    /// Internal device state is invalid.
    ///
    /// It was not possible to read a valid date and/or time.
    /// The device is probably missing initialization.
    InvalidDeviceState,
}

/// Square-wave output frequency
#[derive(Debug, Clone, Copy, PartialEq, Eq, Structural)]
pub enum SqWFreq {
    /// 1 Hz (default)
    _1Hz,
    /// 1.024 Hz
    _1_024Hz,
    /// 4.096 Hz
    _4_096Hz,
    /// 8.192 Hz
    _8_192Hz,
}

/// Temperature conversion rate
///
/// This is only available on the DS3232 and DS3234 devices.
#[derive(Debug, Clone, Copy, PartialEq, Eq, Structural)]
pub enum TempConvRate {
    /// Once every 64 seconds (default)
    _64s,
    /// Once every 128 seconds
    _128s,
    /// Once every 256 seconds
    _256s,
    /// Once every 512 seconds
    _512s,
}

/// Fixed 7-bit bus target address of the DS3231 and DS3232 (byte-bus parts)
pub const DEVICE_ADDRESS: u8 = 0b110_1000;

/// Power-on-reset value of the control register, shared by all variants
pub const CONTROL_POR_VALUE: u8 = 0b0001_1100;

/// DS3231, DS3232 and DS3234 RTC driver
#[derive(Debug)]
pub struct Ds323x<DI, IC> {
    pub(crate) iface: DI,
    pub(crate) control: u8,
    pub(crate) status: u8,
    pub(crate) _ic: PhantomData<IC>,
}

impl<DI, IC> Ds323x<DI, IC> {
    /// The cached copy of the chip's control register: the last control
    /// byte this handle wrote, or the power-on-reset value before any
    /// write.
    pub closed spec fn control_cache(&self) -> u8 {
        self.control
    }

    /// The cached copy of the chip's status register: the last status byte
    /// this handle asked to be written (always without the alarm-match
    /// flags), or the power-on-reset value before any write.
    pub closed spec fn status_cache(&self) -> u8 {
        self.status
    }

    /// The transport this handle owns.
    pub closed spec fn transport(&self) -> DI {
        self.iface
    }
}

impl<DI: Transport, IC> Ds323x<DI, IC> {
    /// The modelled value of the chip register at `address`.
    pub open spec fn reg(&self, address: u8) -> u8 {
        self.transport().reg(address)
    }

    /// Every bus operation this handle has issued, oldest first.
    pub open spec fn history(&self) -> Seq<BusOp> {
        self.transport().history()
    }

    /// The modelled contents of `count` consecutive registers starting at
    /// `start`.
    pub open spec fn regs_window(self, start: u8, count: nat) -> Seq<u8> {
        Seq::new(count, |i: int| self.reg((start + i) as u8))
    }

    /// Both register caches carry over unchanged from `pre`.
    pub open spec fn caches_unchanged(self, pre: Self) -> bool {
        &&& self.control_cache() == pre.control_cache()
        &&& self.status_cache() == pre.status_cache()
    }

    /// No modelled register differs from `pre`.
    pub open spec fn regs_unchanged(self, pre: Self) -> bool {
        forall|a: u8| self.reg(a) == pre.reg(a)
    }

    /// Exactly one single-register write of `value` to `address` happened
    /// since `pre`.
    pub open spec fn wrote_register(self, pre: Self, address: u8, value: u8) -> bool {
        &&& self.reg(address) == value
        &&& forall|a: u8| a != address ==> self.reg(a) == pre.reg(a)
        &&& self.history() == pre.history().push(
            BusOp::WriteRegister { register: address, value },
        )
    }

    /// Exactly one burst write of `payload` (address byte first) happened
    /// since `pre`.
    pub open spec fn wrote_burst(self, pre: Self, payload: Seq<u8>) -> bool {
        &&& forall|a: u8|
            self.reg(a) == if payload[0] <= a < payload[0] + payload.len() - 1 {
                payload[a - payload[0] + 1]
            } else {
                pre.reg(a)
            }
        &&& self.history() == pre.history().push(BusOp::WriteData { payload })
    }

    /// Exactly one single-register read of `address` happened since `pre`,
    /// and no register changed.
    pub open spec fn read_register_only(self, pre: Self, address: u8) -> bool {
        &&& self.regs_unchanged(pre)
        &&& self.history() == pre.history().push(BusOp::ReadRegister { register: address })
    }

    /// Exactly one burst read of `count` registers from `start` happened
    /// since `pre`, and no register changed.
    pub open spec fn read_burst_only(self, pre: Self, start: u8, count: nat) -> bool {
        &&& self.regs_unchanged(pre)
        &&& self.history() == pre.history().push(BusOp::ReadData { start, count })
    }
}

} // verus!
