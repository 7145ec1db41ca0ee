//! The paired output registers: raw humidity and temperature samples.
//!
//! Each output is two consecutively-addressed register bytes.  Setting the
//! high bit of the requested address asks the chip to return both bytes in
//! one indivisible auto-increment transaction, so a caller never observes a
//! torn combination of an old high byte with a new low byte or the reverse.
//! No scaling is applied; conversion to physical units is out of scope.

use vstd::prelude::*;

use crate::transport::{
    bytes_of_signed, lemma_write_count_push_read, write_count, write_read_txn, I2C, I2C_ID,
};

verus! {

/// Requested address of the humidity output pair.  HUMIDITY_OUT_L is 0x28 and
/// HUMIDITY_OUT_H is 0x29; the high bit asks for both in one transfer.
pub const H_OUT_ADDR: u8 = 0x80 | 0x28;

/// Requested address of the temperature output pair.  TEMP_OUT_L is 0x2A and
/// TEMP_OUT_H is 0x2B; the high bit asks for both in one transfer.
pub const T_OUT_ADDR: u8 = 0x80 | 0x2A;

/// Read-only snapshot of the HUMIDITY_OUT_L / HUMIDITY_OUT_H register pair,
/// assembled low byte first into one signed 16-bit raw sample.
pub struct HumidityOut(i16);

impl View for HumidityOut {
    type V = i16;

    /// The raw signed sample captured at construction.
    closed spec fn view(&self) -> i16 {
        self.0
    }
}

impl HumidityOut {
    /// Blocking read of both humidity output registers over `comm`, as one
    /// atomic two-byte transaction.  Issues exactly one write-then-read
    /// transaction and never a write transaction.
    pub fn new<Comm: I2C>(comm: &mut Comm) -> (r: Result<Self, Comm::Error>)
        ensures
            r matches Ok(out) ==> final (comm).history() == old(comm).history().push(
                write_read_txn(I2C_ID, seq![H_OUT_ADDR], bytes_of_signed(out@)),
            ),
            r is Err ==> final (comm).history() == old(comm).history(),
            write_count(final (comm).history()) == write_count(old(comm).history()),
    {
        let bits = match crate::transport::read_register_pair(comm, H_OUT_ADDR) {
            Ok(v) => v,
            Err(e) => {
                return Err(e);
            },
        };
        proof {
            lemma_write_count_push_read(
                old(comm).history(),
                write_read_txn(I2C_ID, seq![H_OUT_ADDR], bytes_of_signed(bits)),
            );
        }
        Ok(HumidityOut(bits))
    }

    /// Returns the raw humidity sample value.
    pub fn value(&self) -> (r: i16)
        ensures
            r == self@,
    {
        self.0
    }
}

/// Read-only snapshot of the TEMP_OUT_L / TEMP_OUT_H register pair, assembled
/// low byte first into one signed 16-bit raw sample.
pub struct TemperatureOut(i16);

impl View for TemperatureOut {
    type V = i16;

    /// The raw signed sample captured at construction.
    closed spec fn view(&self) -> i16 {
        self.0
    }
}

impl TemperatureOut {
    /// Blocking read of both temperature output registers over `comm`, as one
    /// atomic two-byte transaction.  Issues exactly one write-then-read
    /// transaction and never a write transaction.
    pub fn new<Comm: I2C>(comm: &mut Comm) -> (r: Result<Self, Comm::Error>)
        ensures
            r matches Ok(out) ==> final (comm).history() == old(comm).history().push(
                write_read_txn(I2C_ID, seq![T_OUT_ADDR], bytes_of_signed(out@)),
            ),
            r is Err ==> final (comm).history() == old(comm).history(),
            write_count(final (comm).history()) == write_count(old(comm).history()),
    {
        let bits = match crate::transport::read_register_pair(comm, T_OUT_ADDR) {
            Ok(v) => v,
            Err(e) => {
                return Err(e);
            },
        };
        proof {
            lemma_write_count_push_read(
                old(comm).history(),
                write_read_txn(I2C_ID, seq![T_OUT_ADDR], bytes_of_signed(bits)),
            );
        }
        Ok(TemperatureOut(bits))
    }

    /// Returns the raw temperature sample value.
    pub fn value(&self) -> (r: i16)
        ensures
            r == self@,
    {
        self.0
    }
}

} // verus!
