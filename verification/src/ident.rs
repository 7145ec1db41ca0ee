//! The WHO_AM_I register, for device identification.

use vstd::prelude::*;

use crate::transport::{
    lemma_write_count_push_read, write_count, write_read_txn, I2C, I2C_ID,
};

verus! {

/// Sub-address of the WHO_AM_I register.
pub const WHO_AM_I_ADDR: u8 = 0x0F;

/// Read-only snapshot of the WHO_AM_I register.
pub struct WhoAmI(u8);

impl View for WhoAmI {
    type V = u8;

    /// The raw register byte captured at construction.
    closed spec fn view(&self) -> u8 {
        self.0
    }
}

impl WhoAmI {
    /// Blocking read of the WHO_AM_I register over `comm`.  Issues exactly one
    /// write-then-read transaction and never a write transaction.
    pub fn new<Comm: I2C>(comm: &mut Comm) -> (r: Result<Self, Comm::Error>)
        ensures
            r matches Ok(reg) ==> final (comm).history() == old(comm).history().push(
                write_read_txn(I2C_ID, seq![WHO_AM_I_ADDR], seq![reg@]),
            ),
            r is Err ==> final (comm).history() == old(comm).history(),
            write_count(final (comm).history()) == write_count(old(comm).history()),
    {
        let bits = match crate::transport::read_register(comm, WHO_AM_I_ADDR) {
            Ok(b) => b,
            Err(e) => {
                return Err(e);
            },
        };
        proof {
            lemma_write_count_push_read(
                old(comm).history(),
                write_read_txn(I2C_ID, seq![WHO_AM_I_ADDR], seq![bits]),
            );
        }
        Ok(WhoAmI(bits))
    }

    /// Returns the raw device-identification byte, which the datasheet fixes
    /// at 0xBC.  The driver does not enforce that value; verifying it is a
    /// caller concern.
    pub fn device_id(&self) -> (r: u8)
        ensures
            r == self@,
    {
        self.0
    }
}

} // verus!
