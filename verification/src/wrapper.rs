//! Wrapper for sharing a device handle behind a clock-style facade.
//!
//! A facade that answers "now" queries owns the device with interior
//! mutability and must refuse re-entrant access instead of blocking; that
//! borrow discipline, and the facade itself, live outside this crate. This
//! module holds the value types of that arrangement: the wrapper owning
//! the device, and the error that adds the failed-acquisition case to the
//! device's own errors.

use vstd::prelude::*;
use crate::{Ds323x, Error};

verus! {

/// Wrapper error
#[derive(Debug)]
pub enum WrapperError<E> {
    /// Device could not be acquired. It may be already acquired.
    CouldNotAcquireDevice,
    /// Other error
    Other(Error<E>),
}

/// Wrapper around a `Ds323x` driver instance for exclusive ownership by a
/// clock-style facade.
pub struct Ds323xWrapper<DI, IC> {
    dev: Ds323x<DI, IC>,
}

impl<DI, IC> Ds323xWrapper<DI, IC> {
    /// The wrapped driver instance.
    pub closed spec fn device(&self) -> Ds323x<DI, IC> {
        self.dev
    }

    /// Return inner `Ds323x` driver instance.
    pub fn into_inner(self) -> (r: Ds323x<DI, IC>)
        ensures
            r == self.device(),
    {
        self.dev
    }
}

impl<DI, IC> From<Ds323x<DI, IC>> for Ds323xWrapper<DI, IC> {
    fn from(dev: Ds323x<DI, IC>) -> (r: Self)
        ensures
            r.device() == dev,
    {
        Ds323xWrapper { dev }
    }
}

impl<DI, IC> vstd::std_specs::convert::FromSpecImpl<Ds323x<DI, IC>> for Ds323xWrapper<DI, IC> {
    open spec fn obeys_from_spec() -> bool {
        true
    }

    closed spec fn from_spec(dev: Ds323x<DI, IC>) -> Self {
        Ds323xWrapper { dev }
    }
}

} // verus!
