//! Chip variant markers.
//!
//! Zero-sized types that select, at compile time, which methods a device
//! handle offers.

use vstd::prelude::*;

verus! {

/// DS3231 IC marker
pub struct DS3231;

/// DS3232 IC marker
pub struct DS3232;

/// DS3234 IC marker
pub struct DS3234;

} // verus!
