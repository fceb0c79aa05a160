//! Device status.

use vstd::prelude::*;
use crate::{bitflags, register, BusOp, Ds323x, Error, ReadData, WriteData};

verus! {

/// Temperature in quarter degrees Celsius held in the two temperature
/// registers: a 10-bit two's-complement count (MSB bits 9-2, LSB bits 1-0)
/// at 0.25 degrees Celsius resolution.
pub open spec fn temperature_quarters_spec(msb: u8, lsb: u8) -> i16 {
    if msb >= 128 {
        ((msb * 4 + lsb / 64) - 1024) as i16
    } else {
        (msb * 4 + lsb / 64) as i16
    }
}

/// Decode the two temperature registers into quarter degrees Celsius.
pub fn temperature_from_registers(msb: u8, lsb: u8) -> (r: i16)
    ensures
        r == temperature_quarters_spec(msb, lsb),
{
    let raw: u16 = ((msb as u16) << 2) | ((lsb as u16) >> 6);
    proof {
        assert(((msb as u16) << 2) | ((lsb as u16) >> 6) == msb * 4 + lsb / 64) by (bit_vector);
    }
    if msb >= 128 {
        (raw as i16) - 1024
    } else {
        raw as i16
    }
}

impl<DI, IC, E> Ds323x<DI, IC> where
    DI: ReadData<Error = Error<E>> + WriteData<Error = Error<E>>,
 {
    /// Read whether the oscillator is running
    pub fn running(&mut self) -> (r: Result<bool, Error<E>>)
        ensures
            final(self).caches_unchanged(*old(self)),
            r matches Ok(v) ==> {
                &&& v == ((old(self).reg(register::CONTROL) & bitflags::EOSC) == 0)
                &&& final(self).read_register_only(*old(self), register::CONTROL)
            },
    {
        let control = self.iface.read_register(register::CONTROL)?;
        Ok((control & bitflags::EOSC) == 0)
    }

    /// Read the busy status
    pub fn busy(&mut self) -> (r: Result<bool, Error<E>>)
        ensures
            final(self).caches_unchanged(*old(self)),
            r matches Ok(v) ==> {
                &&& v == ((old(self).reg(register::STATUS) & bitflags::BUSY) != 0)
                &&& final(self).read_register_only(*old(self), register::STATUS)
            },
    {
        let status = self.iface.read_register(register::STATUS)?;
        Ok((status & bitflags::BUSY) != 0)
    }

    /// Read whether the oscillator is stopped or has been stopped at
    /// some point.
    ///
    /// This allows a better assessment of the validity of the timekeeping
    /// data. Once this is true, it will stay as such until cleared with
    /// [`clear_has_been_stopped_flag`](Ds323x::clear_has_been_stopped_flag).
    pub fn has_been_stopped(&mut self) -> (r: Result<bool, Error<E>>)
        ensures
            final(self).caches_unchanged(*old(self)),
            r matches Ok(v) ==> {
                &&& v == ((old(self).reg(register::STATUS) & bitflags::OSC_STOP) != 0)
                &&& final(self).read_register_only(*old(self), register::STATUS)
            },
    {
        let status = self.iface.read_register(register::STATUS)?;
        Ok((status & bitflags::OSC_STOP) != 0)
    }

    /// Clear the flag signalling whether the oscillator is stopped or has
    /// been stopped at some point.
    ///
    /// See also: [`has_been_stopped`](Ds323x::has_been_stopped)
    pub fn clear_has_been_stopped_flag(&mut self) -> (r: Result<(), Error<E>>)
        ensures
            final(self).control_cache() == old(self).control_cache(),
            match r {
                Ok(_) => {
                    &&& final(self).status_cache() == old(self).status_cache()
                        & !bitflags::OSC_STOP
                    &&& final(self).wrote_register(
                        *old(self),
                        register::STATUS,
                        (old(self).status_cache() & !bitflags::OSC_STOP) | bitflags::ALARM2F
                            | bitflags::ALARM1F,
                    )
                },
                Err(_) => final(self).status_cache() == old(self).status_cache(),
            },
    {
        let status = self.status & !bitflags::OSC_STOP;
        self.write_status_without_clearing_alarm(status)
    }

    /// Read whether the Alarm1 has matched at some point.
    ///
    /// Once this is true, it will stay as such until cleared with
    /// [`clear_alarm1_matched_flag`](Ds323x::clear_alarm1_matched_flag).
    pub fn has_alarm1_matched(&mut self) -> (r: Result<bool, Error<E>>)
        ensures
            final(self).caches_unchanged(*old(self)),
            r matches Ok(v) ==> {
                &&& v == ((old(self).reg(register::STATUS) & bitflags::ALARM1F) != 0)
                &&& final(self).read_register_only(*old(self), register::STATUS)
            },
    {
        let status = self.iface.read_register(register::STATUS)?;
        Ok((status & bitflags::ALARM1F) != 0)
    }

    /// Read whether the Alarm2 has matched at some point.
    ///
    /// Once this is true, it will stay as such until cleared with
    /// [`clear_alarm2_matched_flag`](Ds323x::clear_alarm2_matched_flag).
    pub fn has_alarm2_matched(&mut self) -> (r: Result<bool, Error<E>>)
        ensures
            final(self).caches_unchanged(*old(self)),
            r matches Ok(v) ==> {
                &&& v == ((old(self).reg(register::STATUS) & bitflags::ALARM2F) != 0)
                &&& final(self).read_register_only(*old(self), register::STATUS)
            },
    {
        let status = self.iface.read_register(register::STATUS)?;
        Ok((status & bitflags::ALARM2F) != 0)
    }

    /// Clear the flag signalling that Alarm1 has matched.
    ///
    /// The byte written to the status register carries the cached status
    /// with the Alarm2-match flag re-asserted, so only the Alarm1 flag is
    /// affected on the chip.
    pub fn clear_alarm1_matched_flag(&mut self) -> (r: Result<(), Error<E>>)
        ensures
            final(self).caches_unchanged(*old(self)),
            r matches Ok(_) ==> final(self).wrote_register(
                *old(self),
                register::STATUS,
                old(self).status_cache() | bitflags::ALARM2F,
            ),
    {
        let status = self.status | bitflags::ALARM2F;
        self.iface.write_register(register::STATUS, status)
    }

    /// Clear the flag signalling that Alarm2 has matched.
    ///
    /// The byte written to the status register carries the cached status
    /// with the Alarm1-match flag re-asserted, so only the Alarm2 flag is
    /// affected on the chip.
    pub fn clear_alarm2_matched_flag(&mut self) -> (r: Result<(), Error<E>>)
        ensures
            final(self).caches_unchanged(*old(self)),
            r matches Ok(_) ==> final(self).wrote_register(
                *old(self),
                register::STATUS,
                old(self).status_cache() | bitflags::ALARM1F,
            ),
    {
        let status = self.status | bitflags::ALARM1F;
        self.iface.write_register(register::STATUS, status)
    }

    /// Read the temperature in quarter degrees Celsius, the chip's native
    /// 0.25-degree resolution.
    ///
    /// Note: It is possible to manually force a temperature conversion
    /// with [`convert_temperature`](Ds323x::convert_temperature).
    pub fn temperature_quarters(&mut self) -> (r: Result<i16, Error<E>>)
        ensures
            final(self).caches_unchanged(*old(self)),
            r matches Ok(t) ==> {
                &&& t == temperature_quarters_spec(
                    old(self).reg(register::TEMP_MSB),
                    old(self).reg((register::TEMP_MSB + 1) as u8),
                )
                &&& final(self).read_burst_only(*old(self), register::TEMP_MSB, 2)
            },
    {
        let data = self.iface.read_data(register::TEMP_MSB, 2)?;
        Ok(temperature_from_registers(data[0], data[1]))
    }
}

} // verus!
