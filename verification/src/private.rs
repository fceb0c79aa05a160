//! Marker trait restricting which types may stand in for a chip variant or
//! a transport.

use vstd::prelude::*;

verus! {

/// Implemented by the chip variant markers and by transport types.
pub trait Sealed {}

impl Sealed for crate::ic::DS3231 {}

impl Sealed for crate::ic::DS3232 {}

impl Sealed for crate::ic::DS3234 {}

} // verus!
