//! The AV_CONF register: humidity and temperature averaging configuration.
//!
//! The register packs two independent 3-bit fields: the humidity averaging
//! selector at offset 0 and the temperature averaging selector at offset 3.
//! Each field holds one of eight enumerated averaging depths; accessors
//! translate the raw 3-bit code to the corresponding sample count.

use vstd::prelude::*;

use crate::bits::{
    bit, get_field, lemma_low_mask_identity, lemma_set_field_frame, lemma_set_field_get,
    set_field,
};
use crate::transport::{
    lemma_write_count_push_read, write_count, write_read_txn, write_txn, I2C, I2C_ID,
};

verus! {

/// Sub-address of the AV_CONF register.
pub const AV_CONF_ADDR: u8 = 0x10;

/// The humidity averaging field is 3 bits wide.
pub const H_MASK: u8 = 0b111;

/// The humidity averaging field starts at bit 0.
pub const H_OFFSET: u8 = 0;

/// The temperature averaging field is 3 bits wide.
pub const T_MASK: u8 = 0b111;

/// The temperature averaging field starts at bit 3.
pub const T_OFFSET: u8 = 3;

/// Number of internal humidity samples averaged into one output sample.
#[derive(Clone, Copy, Debug)]
pub enum AvgH {
    /// 4 samples.
    Avg4,
    /// 8 samples.
    Avg8,
    /// 16 samples.
    Avg16,
    /// 32 samples.
    Avg32,
    /// 64 samples.
    Avg64,
    /// 128 samples.
    Avg128,
    /// 256 samples.
    Avg256,
    /// 512 samples.
    Avg512,
}

/// Number of internal temperature samples averaged into one output sample.
#[derive(Clone, Copy, Debug)]
pub enum AvgT {
    /// 2 samples.
    Avg2,
    /// 4 samples.
    Avg4,
    /// 8 samples.
    Avg8,
    /// 16 samples.
    Avg16,
    /// 32 samples.
    Avg32,
    /// 64 samples.
    Avg64,
    /// 128 samples.
    Avg128,
    /// 256 samples.
    Avg256,
}

/// The 3-bit field code of a humidity averaging level.
pub open spec fn avg_h_code(level: AvgH) -> u8 {
    match level {
        AvgH::Avg4 => 0,
        AvgH::Avg8 => 1,
        AvgH::Avg16 => 2,
        AvgH::Avg32 => 3,
        AvgH::Avg64 => 4,
        AvgH::Avg128 => 5,
        AvgH::Avg256 => 6,
        AvgH::Avg512 => 7,
    }
}

/// The sample count a humidity averaging level selects.
pub open spec fn avg_h_count(level: AvgH) -> u16 {
    match level {
        AvgH::Avg4 => 4,
        AvgH::Avg8 => 8,
        AvgH::Avg16 => 16,
        AvgH::Avg32 => 32,
        AvgH::Avg64 => 64,
        AvgH::Avg128 => 128,
        AvgH::Avg256 => 256,
        AvgH::Avg512 => 512,
    }
}

/// The 3-bit field code of a temperature averaging level.
pub open spec fn avg_t_code(level: AvgT) -> u8 {
    match level {
        AvgT::Avg2 => 0,
        AvgT::Avg4 => 1,
        AvgT::Avg8 => 2,
        AvgT::Avg16 => 3,
        AvgT::Avg32 => 4,
        AvgT::Avg64 => 5,
        AvgT::Avg128 => 6,
        AvgT::Avg256 => 7,
    }
}

/// The sample count a temperature averaging level selects.
pub open spec fn avg_t_count(level: AvgT) -> u16 {
    match level {
        AvgT::Avg2 => 2,
        AvgT::Avg4 => 4,
        AvgT::Avg8 => 8,
        AvgT::Avg16 => 16,
        AvgT::Avg32 => 32,
        AvgT::Avg64 => 64,
        AvgT::Avg128 => 128,
        AvgT::Avg256 => 256,
    }
}

/// The humidity sample count encoded by a 3-bit field code: 4 doubled for
/// each step of the code.
pub open spec fn humidity_samples_of(code: u8) -> u16
    recommends
        code <= 7,
{
    if code == 0 {
        4
    } else if code == 1 {
        8
    } else if code == 2 {
        16
    } else if code == 3 {
        32
    } else if code == 4 {
        64
    } else if code == 5 {
        128
    } else if code == 6 {
        256
    } else {
        512
    }
}

/// The temperature sample count encoded by a 3-bit field code: 2 doubled for
/// each step of the code.
pub open spec fn temperature_samples_of(code: u8) -> u16
    recommends
        code <= 7,
{
    if code == 0 {
        2
    } else if code == 1 {
        4
    } else if code == 2 {
        8
    } else if code == 3 {
        16
    } else if code == 4 {
        32
    } else if code == 5 {
        64
    } else if code == 6 {
        128
    } else {
        256
    }
}

/// Read/modify/write snapshot of the AV_CONF register.
#[derive(Clone, Copy)]
pub struct AvConf(u8);

impl View for AvConf {
    type V = u8;

    /// The raw register byte of the snapshot.
    closed spec fn view(&self) -> u8 {
        self.0
    }
}

impl AvConf {
    /// Blocking read of the AV_CONF register over `comm`.  Issues exactly one
    /// write-then-read transaction and never a write transaction.
    pub fn new<Comm: I2C>(comm: &mut Comm) -> (r: Result<Self, Comm::Error>)
        ensures
            r matches Ok(reg) ==> final (comm).history() == old(comm).history().push(
                write_read_txn(I2C_ID, seq![AV_CONF_ADDR], seq![reg@]),
            ),
            r is Err ==> final (comm).history() == old(comm).history(),
            write_count(final (comm).history()) == write_count(old(comm).history()),
    {
        let bits = match crate::transport::read_register(comm, AV_CONF_ADDR) {
            Ok(b) => b,
            Err(e) => {
                return Err(e);
            },
        };
        proof {
            lemma_write_count_push_read(
                old(comm).history(),
                write_read_txn(I2C_ID, seq![AV_CONF_ADDR], seq![bits]),
            );
        }
        Ok(AvConf(bits))
    }

    /// Updates the snapshot with `f`, then commits the whole snapshot byte to
    /// the chip in exactly one write transaction — even when `f` changes
    /// nothing.  Accessor methods touch only the in-memory snapshot, so this
    /// is the one entry point through which a configuration change reaches
    /// the chip.
    pub fn modify<Comm, F>(&mut self, comm: &mut Comm, f: F) -> (r: Result<(), Comm::Error>) where
        Comm: I2C,
        F: FnOnce(AvConf) -> AvConf,

        requires
            call_requires(f, (*old(self),)),
        ensures
            call_ensures(f, (*old(self),), *final (self)),
            r is Ok ==> final (comm).history() == old(comm).history().push(
                write_txn(I2C_ID, seq![AV_CONF_ADDR, final (self)@]),
            ),
            r is Err ==> final (comm).history() == old(comm).history(),
    {
        let updated = f(*self);
        *self = updated;
        crate::transport::write_register(comm, AV_CONF_ADDR, self.0)
    }

    /// Returns the number of internal humidity samples averaged together to
    /// generate one sample — the interpretation of the field, not the raw
    /// 3-bit code.
    pub fn humidity_samples_averaged(&self) -> (r: u16)
        ensures
            r == humidity_samples_of(get_field(self@, H_MASK, H_OFFSET)),
    {
        let code: u8 = (self.0 >> H_OFFSET) & H_MASK;
        match code {
            0 => 4,
            1 => 8,
            2 => 16,
            3 => 32,
            4 => 64,
            5 => 128,
            6 => 256,
            _ => 512,
        }
    }

    /// Sets the number of internal humidity samples averaged together to
    /// generate one sample.  Only the 3-bit humidity field changes: the
    /// temperature field and the top two bits of the byte keep their values.
    /// Commit the snapshot through [`AvConf::modify`] to reach the chip.
    pub fn set_humidity_samples_averaged(&mut self, samples: AvgH)
        ensures
            final (self)@ == set_field(old(self)@, H_MASK, H_OFFSET, avg_h_code(samples)),
            get_field(final (self)@, H_MASK, H_OFFSET) == avg_h_code(samples),
            get_field(final (self)@, T_MASK, T_OFFSET) == get_field(old(self)@, T_MASK, T_OFFSET),
            forall|j: u8| 3 <= j < 8 ==> bit(final (self)@, j) == bit(old(self)@, j),
    {
        let code = encode_avg_h(samples);
        self.0 = (self.0 & !(H_MASK << H_OFFSET)) | ((code & H_MASK) << H_OFFSET);
        proof {
            lemma_set_field_get(old(self)@, H_MASK, H_OFFSET, code, 3);
            lemma_low_mask_identity(code, H_MASK);
            lemma_set_field_frame(old(self)@, H_MASK, H_OFFSET, code, 3);
            let b0 = old(self)@;
            assert(get_field(set_field(b0, H_MASK, H_OFFSET, code), T_MASK, T_OFFSET) == get_field(
                b0,
                T_MASK,
                T_OFFSET,
            )) by (bit_vector);
        }
    }

    /// Returns the number of internal temperature samples averaged together
    /// to generate one sample — the interpretation of the field, not the raw
    /// 3-bit code.
    pub fn temperature_samples_averaged(&self) -> (r: u16)
        ensures
            r == temperature_samples_of(get_field(self@, T_MASK, T_OFFSET)),
    {
        let code: u8 = (self.0 >> T_OFFSET) & T_MASK;
        match code {
            0 => 2,
            1 => 4,
            2 => 8,
            3 => 16,
            4 => 32,
            5 => 64,
            6 => 128,
            _ => 256,
        }
    }

    /// Sets the number of internal temperature samples averaged together to
    /// generate one sample.  Only the 3-bit temperature field changes: the
    /// humidity field and the top two bits of the byte keep their values.
    /// Commit the snapshot through [`AvConf::modify`] to reach the chip.
    pub fn set_temperature_samples_averaged(&mut self, samples: AvgT)
        ensures
            final (self)@ == set_field(old(self)@, T_MASK, T_OFFSET, avg_t_code(samples)),
            get_field(final (self)@, T_MASK, T_OFFSET) == avg_t_code(samples),
            get_field(final (self)@, H_MASK, H_OFFSET) == get_field(old(self)@, H_MASK, H_OFFSET),
            forall|j: u8| j < 8 && (j < 3 || j >= 6) ==> bit(final (self)@, j) == bit(
                old(self)@,
                j,
            ),
    {
        let code = encode_avg_t(samples);
        self.0 = (self.0 & !(T_MASK << T_OFFSET)) | ((code & T_MASK) << T_OFFSET);
        proof {
            lemma_set_field_get(old(self)@, T_MASK, T_OFFSET, code, 3);
            lemma_low_mask_identity(code, T_MASK);
            lemma_set_field_frame(old(self)@, T_MASK, T_OFFSET, code, 3);
            let b0 = old(self)@;
            assert(get_field(set_field(b0, T_MASK, T_OFFSET, code), H_MASK, H_OFFSET) == get_field(
                b0,
                H_MASK,
                H_OFFSET,
            )) by (bit_vector);
        }
    }
}

/// The 3-bit field code of `level`, as executable code.
fn encode_avg_h(level: AvgH) -> (r: u8)
    ensures
        r == avg_h_code(level),
{
    match level {
        AvgH::Avg4 => 0,
        AvgH::Avg8 => 1,
        AvgH::Avg16 => 2,
        AvgH::Avg32 => 3,
        AvgH::Avg64 => 4,
        AvgH::Avg128 => 5,
        AvgH::Avg256 => 6,
        AvgH::Avg512 => 7,
    }
}

/// The 3-bit field code of `level`, as executable code.
fn encode_avg_t(level: AvgT) -> (r: u8)
    ensures
        r == avg_t_code(level),
{
    match level {
        AvgT::Avg2 => 0,
        AvgT::Avg4 => 1,
        AvgT::Avg8 => 2,
        AvgT::Avg16 => 3,
        AvgT::Avg32 => 4,
        AvgT::Avg64 => 5,
        AvgT::Avg128 => 6,
        AvgT::Avg256 => 7,
    }
}

/// Encode-then-decode is the identity on humidity averaging levels: writing a
/// level's code into the humidity field of any starting byte and reading the
/// field back yields that level's sample count.
pub proof fn lemma_humidity_averaging_round_trip(b: u8, level: AvgH)
    ensures
        humidity_samples_of(
            get_field(set_field(b, H_MASK, H_OFFSET, avg_h_code(level)), H_MASK, H_OFFSET),
        ) == avg_h_count(level),
{
    lemma_set_field_get(b, H_MASK, H_OFFSET, avg_h_code(level), 3);
    lemma_low_mask_identity(avg_h_code(level), H_MASK);
}

/// Encode-then-decode is the identity on temperature averaging levels:
/// writing a level's code into the temperature field of any starting byte and
/// reading the field back yields that level's sample count.
pub proof fn lemma_temperature_averaging_round_trip(b: u8, level: AvgT)
    ensures
        temperature_samples_of(
            get_field(set_field(b, T_MASK, T_OFFSET, avg_t_code(level)), T_MASK, T_OFFSET),
        ) == avg_t_count(level),
{
    lemma_set_field_get(b, T_MASK, T_OFFSET, avg_t_code(level), 3);
    lemma_low_mask_identity(avg_t_code(level), T_MASK);
}

} // verus!
