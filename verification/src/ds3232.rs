//! Functions exclusive of DS3232.

use vstd::prelude::*;
use core::marker::PhantomData;
use crate::ds323x::configuration::temp_conv_rate_apply;
use crate::{bitflags, ic, register, Ds323x, Error, ReadData, TempConvRate, WriteData,
    CONTROL_POR_VALUE};

verus! {

impl<DI> Ds323x<DI, ic::DS3232> {
    /// Create a new instance of the DS3232 device over a byte-bus
    /// transport, with both register caches at the chip's documented
    /// power-on-reset values.
    pub fn new_ds3232(iface: DI) -> (r: Self)
        ensures
            r.transport() == iface,
            r.control_cache() == CONTROL_POR_VALUE,
            r.status_cache() == bitflags::OSC_STOP | bitflags::BB32KHZ | bitflags::EN32KHZ,
    {
        Ds323x {
            iface,
            control: CONTROL_POR_VALUE,
            status: bitflags::OSC_STOP | bitflags::BB32KHZ | bitflags::EN32KHZ,
            _ic: PhantomData,
        }
    }

    /// Destroy driver instance, return the transport.
    pub fn destroy_ds3232(self) -> (r: DI)
        ensures
            r == self.transport(),
    {
        self.iface
    }
}

impl<DI, E> Ds323x<DI, ic::DS3232> where
    DI: ReadData<Error = Error<E>> + WriteData<Error = Error<E>>,
 {
    /// Enable the 32kHz output when battery-powered. (enabled per default)
    ///
    /// Additionally, the 32kHz output needs to be enabled. See
    /// [`enable_32khz_output`](Ds323x::enable_32khz_output).
    ///
    /// Note: This is only available for DS3232 and DS3234 devices.
    pub fn enable_32khz_output_on_battery(&mut self) -> (r: Result<(), Error<E>>)
        ensures
            final(self).control_cache() == old(self).control_cache(),
            match r {
                Ok(_) => {
                    &&& final(self).status_cache() == old(self).status_cache() | bitflags::BB32KHZ
                    &&& final(self).wrote_register(
                        *old(self),
                        register::STATUS,
                        old(self).status_cache() | bitflags::BB32KHZ | bitflags::ALARM2F
                            | bitflags::ALARM1F,
                    )
                },
                Err(_) => final(self).status_cache() == old(self).status_cache(),
            },
    {
        let status = self.status | bitflags::BB32KHZ;
        self.write_status_without_clearing_alarm(status)
    }

    /// Disable the 32kHz output when battery-powered.
    ///
    /// The 32kHz output will still generate a wave when not battery-powered
    /// if it is enabled. See
    /// [`enable_32khz_output`](Ds323x::enable_32khz_output).
    ///
    /// Note: This is only available for DS3232 and DS3234 devices.
    pub fn disable_32khz_output_on_battery(&mut self) -> (r: Result<(), Error<E>>)
        ensures
            final(self).control_cache() == old(self).control_cache(),
            match r {
                Ok(_) => {
                    &&& final(self).status_cache() == old(self).status_cache() & !bitflags::BB32KHZ
                    &&& final(self).wrote_register(
                        *old(self),
                        register::STATUS,
                        (old(self).status_cache() & !bitflags::BB32KHZ) | bitflags::ALARM2F
                            | bitflags::ALARM1F,
                    )
                },
                Err(_) => final(self).status_cache() == old(self).status_cache(),
            },
    {
        let status = self.status & !bitflags::BB32KHZ;
        self.write_status_without_clearing_alarm(status)
    }

    /// Set the temperature conversion rate.
    ///
    /// Set how often the temperature is measured and compensation is
    /// applied to the oscillator. This can be used to reduce power
    /// consumption, but sudden temperature changes will not be compensated
    /// for.
    ///
    /// Note: This is only available for DS3232 and DS3234 devices.
    pub fn set_temperature_conversion_rate(&mut self, rate: TempConvRate) -> (r: Result<
        (),
        Error<E>,
    >)
        ensures
            final(self).control_cache() == old(self).control_cache(),
            match r {
                Ok(_) => {
                    &&& final(self).status_cache() == temp_conv_rate_apply(
                        old(self).status_cache(),
                        rate,
                    )
                    &&& final(self).wrote_register(
                        *old(self),
                        register::STATUS,
                        temp_conv_rate_apply(old(self).status_cache(), rate) | bitflags::ALARM2F
                            | bitflags::ALARM1F,
                    )
                },
                Err(_) => final(self).status_cache() == old(self).status_cache(),
            },
    {
        let status: u8 = match rate {
            TempConvRate::_64s => self.status & !bitflags::CRATE1 & !bitflags::CRATE0,
            TempConvRate::_128s => (self.status & !bitflags::CRATE1) | bitflags::CRATE0,
            TempConvRate::_256s => (self.status | bitflags::CRATE1) & !bitflags::CRATE0,
            TempConvRate::_512s => self.status | bitflags::CRATE1 | bitflags::CRATE0,
        };
        self.write_status_without_clearing_alarm(status)
    }
}

} // verus!
