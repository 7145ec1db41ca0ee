//! The STATUS register: sample-availability flags.

use vstd::prelude::*;

use crate::bits::bit;
use crate::transport::{
    lemma_write_count_push_read, write_count, write_read_txn, I2C, I2C_ID,
};

verus! {

/// Sub-address of the STATUS register.
pub const STATUS_ADDR: u8 = 0x27;

/// The humidity-ready flag is bit 1.
pub const HUMIDITY_BIT: u8 = 1;

/// The temperature-ready flag is bit 0.
pub const TEMPERATURE_BIT: u8 = 0;

/// Read-only snapshot of the STATUS register.  Read it fresh each time
/// current readiness is wanted; the snapshot is not refreshed between polls.
pub struct StatusReg(u8);

impl View for StatusReg {
    type V = u8;

    /// The raw register byte captured at construction.
    closed spec fn view(&self) -> u8 {
        self.0
    }
}

impl StatusReg {
    /// Blocking read of the STATUS register over `comm`.  Issues exactly one
    /// write-then-read transaction and never a write transaction.
    pub fn new<Comm: I2C>(comm: &mut Comm) -> (r: Result<Self, Comm::Error>)
        ensures
            r matches Ok(reg) ==> final (comm).history() == old(comm).history().push(
                write_read_txn(I2C_ID, seq![STATUS_ADDR], seq![reg@]),
            ),
            r is Err ==> final (comm).history() == old(comm).history(),
            write_count(final (comm).history()) == write_count(old(comm).history()),
    {
        let bits = match crate::transport::read_register(comm, STATUS_ADDR) {
            Ok(b) => b,
            Err(e) => {
                return Err(e);
            },
        };
        proof {
            lemma_write_count_push_read(
                old(comm).history(),
                write_read_txn(I2C_ID, seq![STATUS_ADDR], seq![bits]),
            );
        }
        Ok(StatusReg(bits))
    }

    /// Returns true if a humidity sample is available.
    pub fn humidity_data_available(&self) -> (r: bool)
        ensures
            r == bit(self@, HUMIDITY_BIT),
    {
        self.0 & (1u8 << HUMIDITY_BIT) > 0
    }

    /// Returns true if a temperature sample is available.
    pub fn temperature_data_available(&self) -> (r: bool)
        ensures
            r == bit(self@, TEMPERATURE_BIT),
    {
        self.0 & (1u8 << TEMPERATURE_BIT) > 0
    }
}

} // verus!
