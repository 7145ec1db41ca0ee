//! The bus transport capability and the register access primitives.
//!
//! All device communication goes through a caller-supplied type implementing
//! [`I2C`]: a blocking write and a blocking write-then-read, each one
//! indivisible bus transaction.  The trait carries a ghost history of the
//! transactions an implementation has completed, oldest first; the contracts
//! of this module state every register operation in terms of how it extends
//! that history.

use vstd::prelude::*;

verus! {

/// 7-bit bus address of the HTS221.  The datasheet prints the 8-bit read
/// address (BFh) and the 8-bit write address (BEh); this is the common 7-bit
/// form both derive from.
pub const I2C_ID: u8 = 0x5F;

/// One completed bus transaction, as recorded in a transport's ghost history.
pub enum Transaction {
    /// `data` was sent to the peer at 7-bit address `dev_addr`.
    Write { dev_addr: u8, data: Seq<u8> },
    /// `data` was sent to the peer at 7-bit address `dev_addr` and `response`
    /// was read back, all in one bus transaction.
    WriteRead { dev_addr: u8, data: Seq<u8>, response: Seq<u8> },
}

/// The write transaction that sends `data` to `dev_addr`.
pub open spec fn write_txn(dev_addr: u8, data: Seq<u8>) -> Transaction {
    Transaction::Write { dev_addr, data }
}

/// The write-then-read transaction that sends `data` to `dev_addr` and reads
/// `response` back.
pub open spec fn write_read_txn(dev_addr: u8, data: Seq<u8>, response: Seq<u8>) -> Transaction {
    Transaction::WriteRead { dev_addr, data, response }
}

/// How many write transactions a history holds.
pub open spec fn write_count(history: Seq<Transaction>) -> nat
    decreases history.len(),
{
    if history.len() == 0 {
        0
    } else {
        write_count(history.drop_last()) + if history.last() is Write {
            1nat
        } else {
            0nat
        }
    }
}

/// A history extended by a write-then-read transaction holds exactly as many
/// write transactions as before.
pub proof fn lemma_write_count_push_read(history: Seq<Transaction>, t: Transaction)
    requires
        t is WriteRead,
    ensures
        write_count(history.push(t)) == write_count(history),
{
    assert(history.push(t).drop_last() =~= history);
}

/// A history extended by a write transaction holds exactly one more write
/// transaction than before.
pub proof fn lemma_write_count_push_write(history: Seq<Transaction>, t: Transaction)
    requires
        t is Write,
    ensures
        write_count(history.push(t)) == write_count(history) + 1,
{
    assert(history.push(t).drop_last() =~= history);
}

/// Blocking transport to a two-wire addressed bus.
///
/// An implementation performs the two transaction shapes the driver needs and
/// reports a transport-defined failure outcome.  A successful call appends the
/// completed transaction to the implementation's ghost history; a failed call
/// completes no transaction and leaves the history unchanged.  The driver adds
/// no retry or buffering on top of this.
pub trait I2C {
    /// Transport-defined failure outcome, reported verbatim to the caller.
    type Error;

    /// The bus transactions this transport has completed, oldest first.
    spec fn history(&self) -> Seq<Transaction>;

    /// Blocking write: sends `bytes` to the peer with 7-bit address
    /// `dev_addr` as one bus transaction.
    fn write(&mut self, dev_addr: u8, bytes: &[u8]) -> (r: Result<(), Self::Error>)
        requires
            dev_addr < 128,
        ensures
            r is Ok ==> final (self).history() == old(self).history().push(
                write_txn(dev_addr, bytes@),
            ),
            r is Err ==> final (self).history() == old(self).history(),
    ;

    /// Blocking write followed by a blocking read, as one bus transaction with
    /// no intervening release of the bus: sends `bytes` to the peer with 7-bit
    /// address `dev_addr`, then reads exactly `read_len` bytes back.
    fn write_read(&mut self, dev_addr: u8, bytes: &[u8], read_len: usize) -> (r: Result<
        Vec<u8>,
        Self::Error,
    >)
        requires
            dev_addr < 128,
        ensures
            r matches Ok(response) ==> response@.len() == read_len && final (self).history()
                == old(self).history().push(write_read_txn(dev_addr, bytes@, response@)),
            r is Err ==> final (self).history() == old(self).history(),
    ;
}

/// The signed 16-bit value carried by a consecutively-addressed byte pair,
/// low byte first.
pub open spec fn signed_of(lo: u8, hi: u8) -> i16 {
    (((hi as u16) << 8) | (lo as u16)) as i16
}

/// The little-endian byte pair that carries the signed 16-bit value `v`.
pub open spec fn bytes_of_signed(v: i16) -> Seq<u8> {
    seq![v as u8, ((v as u16) >> 8) as u8]
}

/// Little-endian pair decode assembles `(high << 8) | low` and sign-extends
/// the high byte: the decoded value is `high * 256 + low`, less 65536 when
/// bit 7 of the high byte is set.
pub proof fn lemma_signed_of_value(lo: u8, hi: u8)
    ensures
        hi < 128 ==> signed_of(lo, hi) == hi * 256 + lo,
        hi >= 128 ==> signed_of(lo, hi) == hi * 256 + lo - 65536,
{
    assert((hi < 128 ==> (((hi as u16) << 8) | (lo as u16)) as i16 == hi * 256 + lo) && (hi >= 128
        ==> (((hi as u16) << 8) | (lo as u16)) as i16 == hi * 256 + lo - 65536)) by (bit_vector);
}

/// Pair decode loses nothing: the decoded value reassembles to the very bytes
/// that were read.
pub proof fn lemma_bytes_of_signed_of(lo: u8, hi: u8)
    ensures
        bytes_of_signed(signed_of(lo, hi)) == seq![lo, hi],
{
    assert(signed_of(lo, hi) as u8 == lo && ((signed_of(lo, hi) as u16) >> 8) as u8 == hi)
        by (bit_vector);
    assert(bytes_of_signed(signed_of(lo, hi)) =~= seq![lo, hi]);
}

/// One-byte register read: sends `[addr]`, reads the single response byte.
pub(crate) fn read_register<Comm: I2C>(comm: &mut Comm, addr: u8) -> (r: Result<u8, Comm::Error>)
    ensures
        r matches Ok(b) ==> final (comm).history() == old(comm).history().push(
            write_read_txn(I2C_ID, seq![addr], seq![b]),
        ),
        r is Err ==> final (comm).history() == old(comm).history(),
{
    let req: [u8; 1] = [addr];
    let data = match comm.write_read(I2C_ID, req.as_slice(), 1) {
        Ok(d) => d,
        Err(e) => {
            return Err(e);
        },
    };
    let b = data[0];
    proof {
        assert(req@ =~= seq![addr]);
        assert(data@ =~= seq![b]);
    }
    Ok(b)
}

/// One-byte register write: sends `[addr, bits]`.
pub(crate) fn write_register<Comm: I2C>(comm: &mut Comm, addr: u8, bits: u8) -> (r: Result<
    (),
    Comm::Error,
>)
    ensures
        r is Ok ==> final (comm).history() == old(comm).history().push(
            write_txn(I2C_ID, seq![addr, bits]),
        ),
        r is Err ==> final (comm).history() == old(comm).history(),
{
    let req: [u8; 2] = [addr, bits];
    proof {
        assert(req@ =~= seq![addr, bits]);
    }
    comm.write(I2C_ID, req.as_slice())
}

/// Paired-byte register read: sends `[addr]` (with `addr` already carrying the
/// auto-increment high bit when the caller needs it), reads two consecutive
/// register bytes in one indivisible transaction, and assembles them low byte
/// first into a signed 16-bit value.
pub(crate) fn read_register_pair<Comm: I2C>(comm: &mut Comm, addr: u8) -> (r: Result<
    i16,
    Comm::Error,
>)
    ensures
        r matches Ok(v) ==> final (comm).history() == old(comm).history().push(
            write_read_txn(I2C_ID, seq![addr], bytes_of_signed(v)),
        ),
        r is Err ==> final (comm).history() == old(comm).history(),
{
    let req: [u8; 1] = [addr];
    let data = match comm.write_read(I2C_ID, req.as_slice(), 2) {
        Ok(d) => d,
        Err(e) => {
            return Err(e);
        },
    };
    let lo = data[0];
    let hi = data[1];
    let word: u16 = ((hi as u16) << 8) | (lo as u16);
    let v: i16 = #[verifier::truncate] (word as i16);
    proof {
        assert(req@ =~= seq![addr]);
        assert(data@ =~= seq![lo, hi]);
        lemma_bytes_of_signed_of(lo, hi);
    }
    Ok(v)
}

} // verus!
