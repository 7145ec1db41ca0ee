//! The calibration block: factory-programmed conversion constants.
//!
//! The sixteen calibration registers are read in one indivisible
//! auto-increment transaction and decoded into eight constants: two 8-bit
//! humidity reference points (doubled %RH), two 10-bit temperature reference
//! points whose top bits share one register byte, and four signed 16-bit raw
//! ADC readings.  All eight are surfaced verbatim; the linear interpolation
//! that turns raw samples into physical units is a downstream concern.

use vstd::prelude::*;

use crate::transport::{
    lemma_write_count_push_read, signed_of, write_count, Transaction, I2C, I2C_ID,
};

verus! {

/// Requested address of the calibration block.  The registers occupy 0x30
/// through 0x3F; the high bit asks for all sixteen in one transfer.
pub const CALIBRATION_ADDR: u8 = 0x80 | 0x30;

/// Calibration data of one particular chip.  Chips are factory-calibrated
/// and need no further calibration from the user.
pub struct Calibration {
    /// Relative humidity of calibration point 0, doubled.
    pub h0_rh_x2: u8,
    /// Relative humidity of calibration point 1, doubled.
    pub h1_rh_x2: u8,
    /// Temperature of calibration point 0, times eight.
    pub t0_deg_c_x8: u16,
    /// Temperature of calibration point 1, times eight.
    pub t1_deg_c_x8: u16,
    /// Humidity ADC reading of calibration point 0.
    pub h0_t0_out: i16,
    /// Humidity ADC reading of calibration point 1.
    pub h1_t0_out: i16,
    /// Temperature ADC reading of calibration point 0.
    pub t0_out: i16,
    /// Temperature ADC reading of calibration point 1.
    pub t1_out: i16,
}

/// The eight calibration constants a 16-byte calibration transfer carries.
///
/// Byte offsets from the block start: 0 and 1 are the two doubled humidity
/// points; 2 and 3 are the temperature points' low bytes, whose two high bits
/// each sit in disjoint 2-bit slices of byte 5 (bits 0–1 for point 0, bits
/// 2–3 for point 1); 6–7, 10–11, 12–13 and 14–15 are the four raw ADC
/// readings, each little-endian signed 16-bit.
pub open spec fn spec_calibration(d: Seq<u8>) -> Calibration
    recommends
        d.len() == 16,
{
    Calibration {
        h0_rh_x2: d[0],
        h1_rh_x2: d[1],
        t0_deg_c_x8: (((d[5] & 0b11) as u16) << 8) | (d[2] as u16),
        t1_deg_c_x8: ((((d[5] & 0b1100) >> 2) as u16) << 8) | (d[3] as u16),
        h0_t0_out: signed_of(d[6], d[7]),
        h1_t0_out: signed_of(d[10], d[11]),
        t0_out: signed_of(d[12], d[13]),
        t1_out: signed_of(d[14], d[15]),
    }
}

impl Calibration {
    /// Blocking read of the sixteen calibration registers over `comm`, as one
    /// atomic transaction, decoded as [`spec_calibration`] describes.  Issues
    /// exactly one write-then-read transaction and never a write transaction.
    pub fn new<Comm: I2C>(comm: &mut Comm) -> (r: Result<Self, Comm::Error>)
        ensures
            r matches Ok(c) ==> {
                &&& final (comm).history() == old(comm).history().push(
                    final (comm).history().last(),
                )
                &&& final (comm).history().last() matches Transaction::WriteRead {
                    dev_addr,
                    data,
                    response,
                } && dev_addr == I2C_ID && data == seq![CALIBRATION_ADDR] && response.len() == 16
                    && c == spec_calibration(response)
            },
            r is Err ==> final (comm).history() == old(comm).history(),
            write_count(final (comm).history()) == write_count(old(comm).history()),
    {
        let req: [u8; 1] = [CALIBRATION_ADDR];
        let data = match comm.write_read(I2C_ID, req.as_slice(), 16) {
            Ok(d) => d,
            Err(e) => {
                return Err(e);
            },
        };
        let t0_low: u16 = (data[5] & 0b11) as u16;
        let t1_low: u16 = ((data[5] & 0b1100) >> 2) as u16;
        let c = Calibration {
            h0_rh_x2: data[0],
            h1_rh_x2: data[1],
            t0_deg_c_x8: (t0_low << 8) | (data[2] as u16),
            t1_deg_c_x8: (t1_low << 8) | (data[3] as u16),
            h0_t0_out: assemble_signed(data[6], data[7]),
            h1_t0_out: assemble_signed(data[10], data[11]),
            t0_out: assemble_signed(data[12], data[13]),
            t1_out: assemble_signed(data[14], data[15]),
        };
        proof {
            assert(req@ =~= seq![CALIBRATION_ADDR]);
            lemma_write_count_push_read(
                old(comm).history(),
                crate::transport::write_read_txn(I2C_ID, req@, data@),
            );
        }
        Ok(c)
    }
}

/// Assembles a little-endian signed 16-bit value from its two bytes.
fn assemble_signed(lo: u8, hi: u8) -> (r: i16)
    ensures
        r == signed_of(lo, hi),
{
    let word: u16 = ((hi as u16) << 8) | (lo as u16);
    #[verifier::truncate] (word as i16)
}

} // verus!
