//! Device configuration.

use vstd::prelude::*;
use crate::{bitflags, register, BusOp, Ds323x, Error, ReadData, SqWFreq, TempConvRate, WriteData};

verus! {

/// The status byte selecting a temperature conversion rate: the
/// CRATE1/CRATE0 field of `status` replaced by the two bits naming `rate`.
pub open spec fn temp_conv_rate_apply(status: u8, rate: TempConvRate) -> u8 {
    match rate {
        TempConvRate::_64s => status & !bitflags::CRATE1 & !bitflags::CRATE0,
        TempConvRate::_128s => (status & !bitflags::CRATE1) | bitflags::CRATE0,
        TempConvRate::_256s => (status | bitflags::CRATE1) & !bitflags::CRATE0,
        TempConvRate::_512s => status | bitflags::CRATE1 | bitflags::CRATE0,
    }
}

/// The control byte selecting a square-wave output frequency: the RS2/RS1
/// field of `control` replaced by the two bits naming `freq`.
pub open spec fn sqw_freq_apply(control: u8, freq: SqWFreq) -> u8 {
    match freq {
        SqWFreq::_1Hz => control & !bitflags::RS2 & !bitflags::RS1,
        SqWFreq::_1_024Hz => (control & !bitflags::RS2) | bitflags::RS1,
        SqWFreq::_4_096Hz => (control | bitflags::RS2) & !bitflags::RS1,
        SqWFreq::_8_192Hz => control | bitflags::RS2 | bitflags::RS1,
    }
}

impl<DI, IC, E> Ds323x<DI, IC> where
    DI: ReadData<Error = Error<E>> + WriteData<Error = Error<E>>,
 {
    /// Enable the oscillator (set the clock running) (default).
    pub fn enable(&mut self) -> (r: Result<(), Error<E>>)
        ensures
            final(self).status_cache() == old(self).status_cache(),
            match r {
                Ok(_) => {
                    &&& final(self).control_cache() == old(self).control_cache() & !bitflags::EOSC
                    &&& final(self).wrote_register(
                        *old(self),
                        register::CONTROL,
                        old(self).control_cache() & !bitflags::EOSC,
                    )
                },
                Err(_) => final(self).control_cache() == old(self).control_cache(),
            },
    {
        let control = self.control;
        self.write_control(control & !bitflags::EOSC)
    }

    /// Disable the oscillator (stops the clock).
    pub fn disable(&mut self) -> (r: Result<(), Error<E>>)
        ensures
            final(self).status_cache() == old(self).status_cache(),
            match r {
                Ok(_) => {
                    &&& final(self).control_cache() == old(self).control_cache() | bitflags::EOSC
                    &&& final(self).wrote_register(
                        *old(self),
                        register::CONTROL,
                        old(self).control_cache() | bitflags::EOSC,
                    )
                },
                Err(_) => final(self).control_cache() == old(self).control_cache(),
            },
    {
        let control = self.control;
        self.write_control(control | bitflags::EOSC)
    }

    /// Force a temperature conversion and time compensation with the TCXO
    /// algorithm.
    ///
    /// The chip's control register is re-read so that a conversion already
    /// in progress is never overwritten; the *busy* status should be
    /// checked before doing this. See [`busy`](Ds323x::busy).
    pub fn convert_temperature(&mut self) -> (r: Result<(), Error<E>>)
        ensures
            final(self).caches_unchanged(*old(self)),
            r matches Ok(_) ==> {
                if old(self).reg(register::CONTROL) & bitflags::TEMP_CONV == 0 {
                    &&& final(self).reg(register::CONTROL) == (old(self).reg(register::CONTROL)
                        | bitflags::TEMP_CONV)
                    &&& forall|a: u8|
                        a != register::CONTROL ==> final(self).reg(a) == old(self).reg(a)
                    &&& final(self).history() == old(self).history().push(
                        BusOp::ReadRegister { register: register::CONTROL },
                    ).push(
                        BusOp::WriteRegister {
                            register: register::CONTROL,
                            value: old(self).reg(register::CONTROL) | bitflags::TEMP_CONV,
                        },
                    )
                } else {
                    final(self).read_register_only(*old(self), register::CONTROL)
                }
            },
    {
        let control = self.iface.read_register(register::CONTROL)?;
        // do not overwrite if a conversion is in progress
        if (control & bitflags::TEMP_CONV) == 0 {
            self.iface.write_register(register::CONTROL, control | bitflags::TEMP_CONV)?;
        }
        Ok(())
    }

    /// Enable the 32kHz output. (enabled per default)
    pub fn enable_32khz_output(&mut self) -> (r: Result<(), Error<E>>)
        ensures
            final(self).control_cache() == old(self).control_cache(),
            match r {
                Ok(_) => {
                    &&& final(self).status_cache() == old(self).status_cache() | bitflags::EN32KHZ
                    &&& final(self).wrote_register(
                        *old(self),
                        register::STATUS,
                        old(self).status_cache() | bitflags::EN32KHZ | bitflags::ALARM2F
                            | bitflags::ALARM1F,
                    )
                },
                Err(_) => final(self).status_cache() == old(self).status_cache(),
            },
    {
        let status = self.status | bitflags::EN32KHZ;
        self.write_status_without_clearing_alarm(status)
    }

    /// Disable the 32kHz output.
    pub fn disable_32khz_output(&mut self) -> (r: Result<(), Error<E>>)
        ensures
            final(self).control_cache() == old(self).control_cache(),
            match r {
                Ok(_) => {
                    &&& final(self).status_cache() == old(self).status_cache() & !bitflags::EN32KHZ
                    &&& final(self).wrote_register(
                        *old(self),
                        register::STATUS,
                        (old(self).status_cache() & !bitflags::EN32KHZ) | bitflags::ALARM2F
                            | bitflags::ALARM1F,
                    )
                },
                Err(_) => final(self).status_cache() == old(self).status_cache(),
            },
    {
        let status = self.status & !bitflags::EN32KHZ;
        self.write_status_without_clearing_alarm(status)
    }

    /// Set the aging offset.
    pub fn set_aging_offset(&mut self, offset: i8) -> (r: Result<(), Error<E>>)
        ensures
            final(self).caches_unchanged(*old(self)),
            r matches Ok(_) ==> final(self).wrote_register(
                *old(self),
                register::AGING_OFFSET,
                offset as u8,
            ),
    {
        self.iface.write_register(register::AGING_OFFSET, offset as u8)
    }

    /// Read the aging offset.
    pub fn aging_offset(&mut self) -> (r: Result<i8, Error<E>>)
        ensures
            final(self).caches_unchanged(*old(self)),
            r matches Ok(v) ==> {
                &&& v == old(self).reg(register::AGING_OFFSET) as i8
                &&& final(self).read_register_only(*old(self), register::AGING_OFFSET)
            },
    {
        let offset = self.iface.read_register(register::AGING_OFFSET)?;
        Ok(offset as i8)
    }

    /// Set the interrupt/square-wave output to be used as interrupt output.
    pub fn use_int_sqw_output_as_interrupt(&mut self) -> (r: Result<(), Error<E>>)
        ensures
            final(self).status_cache() == old(self).status_cache(),
            match r {
                Ok(_) => {
                    &&& final(self).control_cache() == old(self).control_cache() | bitflags::INTCN
                    &&& final(self).wrote_register(
                        *old(self),
                        register::CONTROL,
                        old(self).control_cache() | bitflags::INTCN,
                    )
                },
                Err(_) => final(self).control_cache() == old(self).control_cache(),
            },
    {
        let control = self.control;
        self.write_control(control | bitflags::INTCN)
    }

    /// Set the interrupt/square-wave output to be used as square-wave
    /// output. (default)
    pub fn use_int_sqw_output_as_square_wave(&mut self) -> (r: Result<(), Error<E>>)
        ensures
            final(self).status_cache() == old(self).status_cache(),
            match r {
                Ok(_) => {
                    &&& final(self).control_cache() == old(self).control_cache() & !bitflags::INTCN
                    &&& final(self).wrote_register(
                        *old(self),
                        register::CONTROL,
                        old(self).control_cache() & !bitflags::INTCN,
                    )
                },
                Err(_) => final(self).control_cache() == old(self).control_cache(),
            },
    {
        let control = self.control;
        self.write_control(control & !bitflags::INTCN)
    }

    /// Enable battery-backed square wave generation.
    pub fn enable_square_wave(&mut self) -> (r: Result<(), Error<E>>)
        ensures
            final(self).status_cache() == old(self).status_cache(),
            match r {
                Ok(_) => {
                    &&& final(self).control_cache() == old(self).control_cache() | bitflags::BBSQW
                    &&& final(self).wrote_register(
                        *old(self),
                        register::CONTROL,
                        old(self).control_cache() | bitflags::BBSQW,
                    )
                },
                Err(_) => final(self).control_cache() == old(self).control_cache(),
            },
    {
        let control = self.control;
        self.write_control(control | bitflags::BBSQW)
    }

    /// Disable battery-backed square wave generation.
    pub fn disable_square_wave(&mut self) -> (r: Result<(), Error<E>>)
        ensures
            final(self).status_cache() == old(self).status_cache(),
            match r {
                Ok(_) => {
                    &&& final(self).control_cache() == old(self).control_cache() & !bitflags::BBSQW
                    &&& final(self).wrote_register(
                        *old(self),
                        register::CONTROL,
                        old(self).control_cache() & !bitflags::BBSQW,
                    )
                },
                Err(_) => final(self).control_cache() == old(self).control_cache(),
            },
    {
        let control = self.control;
        self.write_control(control & !bitflags::BBSQW)
    }

    /// Set the square-wave output frequency.
    pub fn set_square_wave_frequency(&mut self, freq: SqWFreq) -> (r: Result<(), Error<E>>)
        ensures
            final(self).status_cache() == old(self).status_cache(),
            match r {
                Ok(_) => {
                    &&& final(self).control_cache() == sqw_freq_apply(
                        old(self).control_cache(),
                        freq,
                    )
                    &&& final(self).wrote_register(
                        *old(self),
                        register::CONTROL,
                        sqw_freq_apply(old(self).control_cache(), freq),
                    )
                },
                Err(_) => final(self).control_cache() == old(self).control_cache(),
            },
    {
        let new_control: u8 = match freq {
            SqWFreq::_1Hz => self.control & !bitflags::RS2 & !bitflags::RS1,
            SqWFreq::_1_024Hz => (self.control & !bitflags::RS2) | bitflags::RS1,
            SqWFreq::_4_096Hz => (self.control | bitflags::RS2) & !bitflags::RS1,
            SqWFreq::_8_192Hz => self.control | bitflags::RS2 | bitflags::RS1,
        };
        self.write_control(new_control)
    }

    /// Enable Alarm1 interrupts.
    pub fn enable_alarm1_interrupts(&mut self) -> (r: Result<(), Error<E>>)
        ensures
            final(self).status_cache() == old(self).status_cache(),
            match r {
                Ok(_) => {
                    &&& final(self).control_cache() == old(self).control_cache()
                        | bitflags::ALARM1_INT_EN
                    &&& final(self).wrote_register(
                        *old(self),
                        register::CONTROL,
                        old(self).control_cache() | bitflags::ALARM1_INT_EN,
                    )
                },
                Err(_) => final(self).control_cache() == old(self).control_cache(),
            },
    {
        let control = self.control;
        self.write_control(control | bitflags::ALARM1_INT_EN)
    }

    /// Disable Alarm1 interrupts.
    pub fn disable_alarm1_interrupts(&mut self) -> (r: Result<(), Error<E>>)
        ensures
            final(self).status_cache() == old(self).status_cache(),
            match r {
                Ok(_) => {
                    &&& final(self).control_cache() == old(self).control_cache()
                        & !bitflags::ALARM1_INT_EN
                    &&& final(self).wrote_register(
                        *old(self),
                        register::CONTROL,
                        old(self).control_cache() & !bitflags::ALARM1_INT_EN,
                    )
                },
                Err(_) => final(self).control_cache() == old(self).control_cache(),
            },
    {
        let control = self.control;
        self.write_control(control & !bitflags::ALARM1_INT_EN)
    }

    /// Enable Alarm2 interrupts.
    pub fn enable_alarm2_interrupts(&mut self) -> (r: Result<(), Error<E>>)
        ensures
            final(self).status_cache() == old(self).status_cache(),
            match r {
                Ok(_) => {
                    &&& final(self).control_cache() == old(self).control_cache()
                        | bitflags::ALARM2_INT_EN
                    &&& final(self).wrote_register(
                        *old(self),
                        register::CONTROL,
                        old(self).control_cache() | bitflags::ALARM2_INT_EN,
                    )
                },
                Err(_) => final(self).control_cache() == old(self).control_cache(),
            },
    {
        let control = self.control;
        self.write_control(control | bitflags::ALARM2_INT_EN)
    }

    /// Disable Alarm2 interrupts.
    pub fn disable_alarm2_interrupts(&mut self) -> (r: Result<(), Error<E>>)
        ensures
            final(self).status_cache() == old(self).status_cache(),
            match r {
                Ok(_) => {
                    &&& final(self).control_cache() == old(self).control_cache()
                        & !bitflags::ALARM2_INT_EN
                    &&& final(self).wrote_register(
                        *old(self),
                        register::CONTROL,
                        old(self).control_cache() & !bitflags::ALARM2_INT_EN,
                    )
                },
                Err(_) => final(self).control_cache() == old(self).control_cache(),
            },
    {
        let control = self.control;
        self.write_control(control & !bitflags::ALARM2_INT_EN)
    }

    /// Write a control byte to the chip and mirror it in the cache.
    pub(crate) fn write_control(&mut self, control: u8) -> (r: Result<(), Error<E>>)
        ensures
            final(self).status_cache() == old(self).status_cache(),
            match r {
                Ok(_) => {
                    &&& final(self).control_cache() == control
                    &&& final(self).wrote_register(*old(self), register::CONTROL, control)
                },
                Err(_) => final(self).control_cache() == old(self).control_cache(),
            },
    {
        self.iface.write_register(register::CONTROL, control)?;
        self.control = control;
        Ok(())
    }

    /// Write a status byte to the chip with both sticky alarm-match flags
    /// re-asserted, and mirror the requested byte in the cache.
    ///
    /// The alarm-match flags are cleared by writing them as zero, so every
    /// status write made for an unrelated reason must force them to one or
    /// it would silently discard a pending alarm match. Only the two
    /// explicit clear calls write a status byte directly.
    pub(crate) fn write_status_without_clearing_alarm(&mut self, status: u8) -> (r: Result<
        (),
        Error<E>,
    >)
        ensures
            final(self).control_cache() == old(self).control_cache(),
            match r {
                Ok(_) => {
                    &&& final(self).status_cache() == status
                    &&& final(self).wrote_register(
                        *old(self),
                        register::STATUS,
                        status | bitflags::ALARM2F | bitflags::ALARM1F,
                    )
                },
                Err(_) => final(self).status_cache() == old(self).status_cache(),
            },
    {
        // avoid clearing alarm flags
        let new_status = status | bitflags::ALARM2F | bitflags::ALARM1F;
        self.iface.write_register(register::STATUS, new_status)?;
        self.status = status;
        Ok(())
    }
}

} // verus!
