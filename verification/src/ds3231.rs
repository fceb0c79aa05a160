//! Functions exclusive of DS3231.

use vstd::prelude::*;
use core::marker::PhantomData;
use crate::{bitflags, ic, Ds323x, CONTROL_POR_VALUE};

verus! {

impl<DI> Ds323x<DI, ic::DS3231> {
    /// Create a new instance of the DS3231 device over a byte-bus
    /// transport, with both register caches at the chip's documented
    /// power-on-reset values.
    pub fn new_ds3231(iface: DI) -> (r: Self)
        ensures
            r.transport() == iface,
            r.control_cache() == CONTROL_POR_VALUE,
            r.status_cache() == bitflags::OSC_STOP | bitflags::EN32KHZ,
    {
        Ds323x {
            iface,
            control: CONTROL_POR_VALUE,
            status: bitflags::OSC_STOP | bitflags::EN32KHZ,
            _ic: PhantomData,
        }
    }

    /// Destroy driver instance, return the transport.
    pub fn destroy_ds3231(self) -> (r: DI)
        ensures
            r == self.transport(),
    {
        self.iface
    }
}

} // verus!
