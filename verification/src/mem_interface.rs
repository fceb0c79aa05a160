//! In-memory transport.
//!
//! A register file held in memory that implements the transport traits
//! exactly as their contracts read, and records every bus operation so
//! that a test can check what a device handle issued. It stands in for a
//! chip wherever no bus is attached.

use vstd::prelude::*;
use crate::interface::{BusOp, ReadData, Transport, WriteData, REGISTER_COUNT};
use crate::private::Sealed;
use crate::Error;

verus! {

/// One bus operation as recorded at run time by [`MemInterface`].
#[derive(Debug, PartialEq, Eq)]
pub enum LogEntry {
    /// Single-register write: register address, then the byte written
    WriteRegister(u8, u8),
    /// Burst write: the address byte followed by the register contents
    WriteData(Vec<u8>),
    /// Single-register read of the given register address
    ReadRegister(u8),
    /// Burst read: first register address, then the register count
    ReadData(u8, u8),
}

/// The ghost bus operation a log entry records.
pub open spec fn log_entry_op(entry: LogEntry) -> BusOp {
    match entry {
        LogEntry::WriteRegister(register, value) => BusOp::WriteRegister { register, value },
        LogEntry::WriteData(payload) => BusOp::WriteData { payload: payload@ },
        LogEntry::ReadRegister(register) => BusOp::ReadRegister { register },
        LogEntry::ReadData(start, count) => BusOp::ReadData { start, count: count as nat },
    }
}

/// A transport backed by an in-memory register file that records every
/// bus operation it performs. It never fails.
#[derive(Debug)]
pub struct MemInterface {
    regs: [u8; 20],
    log: Vec<LogEntry>,
}

impl MemInterface {
    /// A fresh register file: every register zero and no operation
    /// recorded.
    pub fn new() -> (r: Self)
        ensures
            forall|a: u8| r.reg(a) == 0u8,
            r.history() == Seq::<BusOp>::empty(),
    {
        MemInterface {
            regs: [0, 0, 0, 0, 0, 0, 0, 0, 0, 0, 0, 0, 0, 0, 0, 0, 0, 0, 0, 0],
            log: Vec::new(),
        }
    }

    /// Store a value directly into the register file, recording no bus
    /// operation: this stands for the chip changing its own registers.
    pub fn poke(&mut self, address: u8, value: u8)
        requires
            address < REGISTER_COUNT,
        ensures
            final(self).reg(address) == value,
            forall|a: u8| a != address ==> final(self).reg(a) == old(self).reg(a),
            final(self).history() == old(self).history(),
    {
        self.regs[address as usize] = value;
    }

    /// Read a register directly, recording no bus operation.
    pub fn peek(&self, address: u8) -> (r: u8)
        requires
            address < REGISTER_COUNT,
        ensures
            r == self.reg(address),
    {
        self.regs[address as usize]
    }

    /// The operations issued through this transport so far, oldest first.
    pub fn log(&self) -> (r: &Vec<LogEntry>)
        ensures
            r@.len() == self.history().len(),
            forall|i: int| 0 <= i < r@.len() ==> log_entry_op(#[trigger] r@[i]) == self.history()[i],
    {
        &self.log
    }
}

impl Sealed for MemInterface {}

impl Transport for MemInterface {
    closed spec fn reg(&self, address: u8) -> u8 {
        if address < REGISTER_COUNT {
            self.regs@[address as int]
        } else {
            0
        }
    }

    closed spec fn history(&self) -> Seq<BusOp> {
        self.log@.map_values(|entry: LogEntry| log_entry_op(entry))
    }
}

impl ReadData for MemInterface {
    type Error = Error<()>;

    fn read_register(&mut self, register: u8) -> (r: Result<u8, Error<()>>)
        ensures
            r matches Ok(_),
    {
        let value = self.regs[register as usize];
        self.log.push(LogEntry::ReadRegister(register));
        proof {
            assert(self.history() =~= old(self).history().push(
                BusOp::ReadRegister { register },
            ));
        }
        Ok(value)
    }

    fn read_data(&mut self, start: u8, count: u8) -> (r: Result<Vec<u8>, Error<()>>)
        ensures
            r matches Ok(_),
    {
        let mut data: Vec<u8> = Vec::new();
        let mut i: u8 = 0;
        while i < count
            invariant
                i <= count,
                start + count <= REGISTER_COUNT,
                *self == *old(self),
                data@.len() == i,
                forall|j: int| 0 <= j < i ==> data@[j] == old(self).reg((start + j) as u8),
            decreases count - i,
        {
            data.push(self.regs[(start + i) as usize]);
            i += 1;
        }
        self.log.push(LogEntry::ReadData(start, count));
        proof {
            assert(self.history() =~= old(self).history().push(
                BusOp::ReadData { start, count: count as nat },
            ));
        }
        Ok(data)
    }
}

impl WriteData for MemInterface {
    type Error = Error<()>;

    fn write_register(&mut self, register: u8, data: u8) -> (r: Result<(), Error<()>>)
        ensures
            r matches Ok(_),
    {
        self.regs[register as usize] = data;
        self.log.push(LogEntry::WriteRegister(register, data));
        proof {
            assert(self.history() =~= old(self).history().push(
                BusOp::WriteRegister { register, value: data },
            ));
        }
        Ok(())
    }

    fn write_data(&mut self, payload: &Vec<u8>) -> (r: Result<(), Error<()>>)
        ensures
            r matches Ok(_),
    {
        let start = payload[0];
        let mut recorded: Vec<u8> = Vec::new();
        recorded.push(start);
        let mut i: usize = 1;
        while i < payload.len()
            invariant
                1 <= i <= payload@.len(),
                2 <= payload@.len(),
                payload@[0] + payload@.len() - 1 <= REGISTER_COUNT,
                start == payload@[0],
                self.log@ == old(self).log@,
                recorded@ == payload@.subrange(0, i as int),
                forall|k: int|
                    0 <= k < 20 ==> #[trigger] self.regs@[k] == if payload@[0] <= k < payload@[0]
                        + i - 1 {
                        payload@[k - payload@[0] + 1]
                    } else {
                        old(self).regs@[k]
                    },
            decreases payload@.len() - i,
        {
            self.regs[(start as usize) + i - 1] = payload[i];
            recorded.push(payload[i]);
            i += 1;
            proof {
                assert(recorded@ =~= payload@.subrange(0, i as int));
            }
        }
        proof {
            assert(recorded@ =~= payload@);
            assert forall|a: u8|
                self.reg(a) == (if payload@[0] <= a < payload@[0] + payload@.len() - 1 {
                    payload@[a - payload@[0] + 1]
                } else {
                    old(self).reg(a)
                }) by {
                if a < REGISTER_COUNT {
                    assert(self.regs@[a as int] == if payload@[0] <= a < payload@[0]
                        + payload@.len() - 1 {
                        payload@[a - payload@[0] + 1]
                    } else {
                        old(self).regs@[a as int]
                    });
                }
            }
        }
        self.log.push(LogEntry::WriteData(recorded));
        proof {
            assert(self.history() =~= old(self).history().push(
                BusOp::WriteData { payload: payload@ },
            ));
        }
        Ok(())
    }
}

} // verus!
