//! Bus-agnostic transport abstraction.
//!
//! The device logic talks to the chip only through the [`ReadData`] and
//! [`WriteData`] capability traits. Their contracts are phrased over a ghost
//! model of the chip: a register file and the history of bus operations
//! issued so far. A transport promises what a successful operation did to
//! that model; on a bus error it promises nothing, mirroring a burst that
//! may have been torn partway through.

use vstd::prelude::*;
use crate::private::Sealed;

verus! {

/// Number of registers in the chip's register file (addresses `0x00`
/// through `0x13`).
pub const REGISTER_COUNT: u8 = 0x14;

/// One bus operation, as recorded in a transport's ghost history.
pub enum BusOp {
    /// Single-register write of `value` to the register at `register`
    WriteRegister {
        /// Register address
        register: u8,
        /// Byte written
        value: u8,
    },
    /// Burst write: `payload[0]` is the starting register address, the
    /// following bytes land in consecutive registers
    WriteData {
        /// Address byte followed by the register contents
        payload: Seq<u8>,
    },
    /// Single-register read
    ReadRegister {
        /// Register address
        register: u8,
    },
    /// Burst read of `count` consecutive registers starting at `start`
    ReadData {
        /// First register address
        start: u8,
        /// Number of registers read
        count: nat,
    },
}

/// Frame a burst-write payload for the chip-select-framed bus: a write is
/// selected by setting the top bit of the register address, a read leaves
/// it clear.
pub fn spi_frame_write(payload: &Vec<u8>) -> (r: Vec<u8>)
    requires
        1 <= payload@.len(),
    ensures
        r@.len() == payload@.len(),
        r@[0] == payload@[0] | 0x80,
        forall|i: int| 1 <= i < r@.len() ==> r@[i] == payload@[i],
{
    let mut framed: Vec<u8> = Vec::new();
    framed.push(payload[0] | 0x80);
    let mut i: usize = 1;
    while i < payload.len()
        invariant
            1 <= i <= payload@.len(),
            framed@.len() == i,
            framed@[0] == payload@[0] | 0x80,
            forall|j: int| 1 <= j < i ==> framed@[j] == payload@[j],
        decreases payload@.len() - i,
    {
        framed.push(payload[i]);
        i += 1;
    }
    framed
}

/// Strip the don't-care echo byte that leads a chip-select-framed bus read
/// response: the chip answers one byte behind the request.
pub fn spi_unframe_read(data: Vec<u8>) -> (r: Vec<u8>)
    requires
        1 <= data@.len(),
    ensures
        r@ == data@.subrange(1, data@.len() as int),
{
    let mut response = data;
    response.remove(0);
    proof {
        assert(response@ =~= data@.subrange(1, data@.len() as int));
    }
    response
}

/// Ghost model of the chip behind a transport.
///
/// A transport whose contracts are meant to carry weight overrides both
/// views, as the in-memory register file does; an unverified bus backend
/// may leave them at their default, about which nothing is known.
pub trait Transport {
    /// The modelled value of the register at `address`.
    open spec fn reg(&self, address: u8) -> u8 {
        arbitrary()
    }

    /// Every bus operation issued through this transport, oldest first.
    open spec fn history(&self) -> Seq<BusOp> {
        arbitrary()
    }
}

/// Read data
pub trait ReadData: Transport + Sealed {
    /// Error type
    type Error;

    /// Read an u8 register
    fn read_register(&mut self, register: u8) -> (r: Result<u8, Self::Error>)
        requires
            register < REGISTER_COUNT,
        ensures
            r matches Ok(value) ==> {
                &&& value == old(self).reg(register)
                &&& forall|a: u8| final(self).reg(a) == old(self).reg(a)
                &&& final(self).history() == old(self).history().push(
                    BusOp::ReadRegister { register },
                )
            },
    ;

    /// Read `count` consecutive registers starting at `start` as one
    /// uninterrupted bus operation.
    fn read_data(&mut self, start: u8, count: u8) -> (r: Result<Vec<u8>, Self::Error>)
        requires
            1 <= count,
            start + count <= REGISTER_COUNT,
        ensures
            r matches Ok(data) ==> {
                &&& data@.len() == count
                &&& forall|i: int| 0 <= i < count ==> data@[i] == old(self).reg((start + i) as u8)
                &&& forall|a: u8| final(self).reg(a) == old(self).reg(a)
                &&& final(self).history() == old(self).history().push(
                    BusOp::ReadData { start, count: count as nat },
                )
            },
    ;
}

/// Write data
pub trait WriteData: Transport + Sealed {
    /// Error type
    type Error;

    /// Write to an u8 register
    fn write_register(&mut self, register: u8, data: u8) -> (r: Result<(), Self::Error>)
        requires
            register < REGISTER_COUNT,
        ensures
            r matches Ok(_) ==> {
                &&& final(self).reg(register) == data
                &&& forall|a: u8| a != register ==> final(self).reg(a) == old(self).reg(a)
                &&& final(self).history() == old(self).history().push(
                    BusOp::WriteRegister { register, value: data },
                )
            },
    ;

    /// Write data as one uninterrupted bus operation. The first element
    /// corresponds to the starting address.
    fn write_data(&mut self, payload: &Vec<u8>) -> (r: Result<(), Self::Error>)
        requires
            2 <= payload@.len(),
            payload@[0] + payload@.len() - 1 <= REGISTER_COUNT,
        ensures
            r matches Ok(_) ==> {
                &&& forall|a: u8|
                    final(self).reg(a) == if payload@[0] <= a < payload@[0] + payload@.len() - 1 {
                        payload@[a - payload@[0] + 1]
                    } else {
                        old(self).reg(a)
                    }
                &&& final(self).history() == old(self).history().push(
                    BusOp::WriteData { payload: payload@ },
                )
            },
    ;
}

} // verus!
