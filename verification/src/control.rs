//! The three control registers: power and data rate, boot and heater and
//! one-shot, and data-ready signal routing.
//!
//! Every mutator here touches only the in-memory snapshot; a change reaches
//! the chip through the owning register's `modify`, which commits the whole
//! byte in exactly one write transaction.  Each single-bit toggle leaves every
//! other bit of the snapshot unchanged.

use vstd::prelude::*;

use crate::bits::{
    bit, get_field, lemma_low_mask_identity, lemma_set_field_frame, lemma_set_field_get,
    lemma_with_bit_cleared, lemma_with_bit_set, set_field, with_bit_cleared, with_bit_set,
};
use crate::transport::{
    lemma_write_count_push_read, write_count, write_read_txn, write_txn, I2C, I2C_ID,
};

verus! {

/// Sub-address of the CTRL_REG1 register.
pub const CTRL_REG1_ADDR: u8 = 0x20;

/// The power-down control is bit 7; the chip is active when it is set.
pub const PD_BIT: u8 = 7;

/// The block-data-update control is bit 2.
pub const BDU_BIT: u8 = 2;

/// The output-data-rate field is 2 bits wide.
pub const ODR_MASK: u8 = 0b11;

/// The output-data-rate field starts at bit 0.
pub const ODR_OFFSET: u8 = 0;

/// Sub-address of the CTRL_REG2 register.
pub const CTRL_REG2_ADDR: u8 = 0x21;

/// The boot control is bit 7; hardware clears it when the reload of the
/// factory calibration trim completes.
pub const BOOT_BIT: u8 = 7;

/// The heater control is bit 1.
pub const HEATER_BIT: u8 = 1;

/// The one-shot control is bit 0; hardware clears it when the conversion
/// completes.
pub const ONE_SHOT_BIT: u8 = 0;

/// Sub-address of the CTRL_REG3 register.
pub const CTRL_REG3_ADDR: u8 = 0x22;

/// The data-ready signal polarity control is bit 7.
pub const DRDY_H_L_BIT: u8 = 7;

/// The data-ready pin drive mode control is bit 6.
pub const PP_OD_BIT: u8 = 6;

/// The data-ready interrupt enable is bit 2.
pub const DRDY_BIT: u8 = 2;

/// The configured output data rate: one-shot, or one of three continuous
/// rates.
#[derive(Clone, Copy, Debug, PartialEq, Eq, Structural)]
pub enum DataRate {
    /// A conversion runs only when explicitly triggered.
    OneShot,
    /// Continuous conversion at 1 Hz.
    Continuous1Hz,
    /// Continuous conversion at 7 Hz.
    Continuous7Hz,
    /// Continuous conversion at 12.5 Hz.
    Continuous12_5Hz,
}

/// The 2-bit field code of a data rate.
pub open spec fn rate_code(rate: DataRate) -> u8 {
    match rate {
        DataRate::OneShot => 0b00,
        DataRate::Continuous1Hz => 0b01,
        DataRate::Continuous7Hz => 0b10,
        DataRate::Continuous12_5Hz => 0b11,
    }
}

/// The data rate a 2-bit field code selects.
pub open spec fn rate_of(code: u8) -> DataRate
    recommends
        code <= 3,
{
    if code == 0b00 {
        DataRate::OneShot
    } else if code == 0b01 {
        DataRate::Continuous1Hz
    } else if code == 0b10 {
        DataRate::Continuous7Hz
    } else {
        DataRate::Continuous12_5Hz
    }
}

/// Encode-then-decode is the identity on data rates: writing a rate's code
/// into the rate field of any starting byte and reading the field back yields
/// that rate.
pub proof fn lemma_data_rate_round_trip(b: u8, rate: DataRate)
    ensures
        rate_of(get_field(set_field(b, ODR_MASK, ODR_OFFSET, rate_code(rate)), ODR_MASK,
            ODR_OFFSET)) == rate,
{
    lemma_set_field_get(b, ODR_MASK, ODR_OFFSET, rate_code(rate), 2);
    lemma_low_mask_identity(rate_code(rate), ODR_MASK);
}

/// Read/modify/write snapshot of CTRL_REG1: power, update mode, data rate.
#[derive(Clone, Copy)]
pub struct CtrlReg1(u8);

impl View for CtrlReg1 {
    type V = u8;

    /// The raw register byte of the snapshot.
    closed spec fn view(&self) -> u8 {
        self.0
    }
}

impl CtrlReg1 {
    /// Blocking read of the CTRL_REG1 register over `comm`.  Issues exactly
    /// one write-then-read transaction and never a write transaction.
    pub fn new<Comm: I2C>(comm: &mut Comm) -> (r: Result<Self, Comm::Error>)
        ensures
            r matches Ok(reg) ==> final (comm).history() == old(comm).history().push(
                write_read_txn(I2C_ID, seq![CTRL_REG1_ADDR], seq![reg@]),
            ),
            r is Err ==> final (comm).history() == old(comm).history(),
            write_count(final (comm).history()) == write_count(old(comm).history()),
    {
        let bits = match crate::transport::read_register(comm, CTRL_REG1_ADDR) {
            Ok(b) => b,
            Err(e) => {
                return Err(e);
            },
        };
        proof {
            lemma_write_count_push_read(
                old(comm).history(),
                write_read_txn(I2C_ID, seq![CTRL_REG1_ADDR], seq![bits]),
            );
        }
        Ok(CtrlReg1(bits))
    }

    /// Updates the snapshot with `f`, then commits the whole snapshot byte to
    /// the chip in exactly one write transaction — even when `f` changes
    /// nothing.
    pub fn modify<Comm, F>(&mut self, comm: &mut Comm, f: F) -> (r: Result<(), Comm::Error>) where
        Comm: I2C,
        F: FnOnce(CtrlReg1) -> CtrlReg1,

        requires
            call_requires(f, (*old(self),)),
        ensures
            call_ensures(f, (*old(self),), *final (self)),
            r is Ok ==> final (comm).history() == old(comm).history().push(
                write_txn(I2C_ID, seq![CTRL_REG1_ADDR, final (self)@]),
            ),
            r is Err ==> final (comm).history() == old(comm).history(),
    {
        let updated = f(*self);
        *self = updated;
        crate::transport::write_register(comm, CTRL_REG1_ADDR, self.0)
    }

    /// Returns true if the chip is active (the power-down bit is set).
    pub fn is_powered_up(&self) -> (r: bool)
        ensures
            r == bit(self@, PD_BIT),
    {
        self.0 & (1u8 << PD_BIT) > 0
    }

    /// Clears the power-down bit; the chip is in power-down mode when the bit
    /// is clear.  No other bit of the snapshot changes.
    pub fn power_down(&mut self)
        ensures
            final (self)@ == with_bit_cleared(old(self)@, PD_BIT),
            !bit(final (self)@, PD_BIT),
            forall|j: u8| j < 8 && j != PD_BIT ==> bit(final (self)@, j) == bit(old(self)@, j),
    {
        self.0 = self.0 & !(1u8 << PD_BIT);
        proof {
            lemma_with_bit_cleared(old(self)@, PD_BIT);
        }
    }

    /// Sets the power-down bit; the chip is active when the bit is set.  No
    /// other bit of the snapshot changes.
    pub fn power_up(&mut self)
        ensures
            final (self)@ == with_bit_set(old(self)@, PD_BIT),
            bit(final (self)@, PD_BIT),
            forall|j: u8| j < 8 && j != PD_BIT ==> bit(final (self)@, j) == bit(old(self)@, j),
    {
        self.0 = self.0 | (1u8 << PD_BIT);
        proof {
            lemma_with_bit_set(old(self)@, PD_BIT);
        }
    }

    /// Returns true if the chip is in block-update mode.
    pub fn is_block_update(&self) -> (r: bool)
        ensures
            r == bit(self@, BDU_BIT),
    {
        self.0 & (1u8 << BDU_BIT) > 0
    }

    /// Clears the block-update bit: the output registers update continuously.
    /// No other bit of the snapshot changes.
    pub fn set_continuous_update(&mut self)
        ensures
            final (self)@ == with_bit_cleared(old(self)@, BDU_BIT),
            !bit(final (self)@, BDU_BIT),
            forall|j: u8| j < 8 && j != BDU_BIT ==> bit(final (self)@, j) == bit(old(self)@, j),
    {
        self.0 = self.0 & !(1u8 << BDU_BIT);
        proof {
            lemma_with_bit_cleared(old(self)@, BDU_BIT);
        }
    }

    /// Sets the block-update bit: after one half of a paired output is read,
    /// the other half is held until it too is read, so a sample cannot be
    /// torn between two conversions.  No other bit of the snapshot changes.
    pub fn set_block_update(&mut self)
        ensures
            final (self)@ == with_bit_set(old(self)@, BDU_BIT),
            bit(final (self)@, BDU_BIT),
            forall|j: u8| j < 8 && j != BDU_BIT ==> bit(final (self)@, j) == bit(old(self)@, j),
    {
        self.0 = self.0 | (1u8 << BDU_BIT);
        proof {
            lemma_with_bit_set(old(self)@, BDU_BIT);
        }
    }

    /// Returns the configured output data rate.
    pub fn data_rate(&self) -> (r: DataRate)
        ensures
            r == rate_of(get_field(self@, ODR_MASK, ODR_OFFSET)),
    {
        let code: u8 = (self.0 >> ODR_OFFSET) & ODR_MASK;
        match code {
            0b00 => DataRate::OneShot,
            0b01 => DataRate::Continuous1Hz,
            0b10 => DataRate::Continuous7Hz,
            _ => DataRate::Continuous12_5Hz,
        }
    }

    /// Sets the output data rate of humidity and temperature sampling.  Only
    /// the 2-bit rate field changes: the power-down and block-update bits and
    /// every other bit keep their values.
    pub fn set_data_rate(&mut self, rate: DataRate)
        ensures
            final (self)@ == set_field(old(self)@, ODR_MASK, ODR_OFFSET, rate_code(rate)),
            get_field(final (self)@, ODR_MASK, ODR_OFFSET) == rate_code(rate),
            rate_of(get_field(final (self)@, ODR_MASK, ODR_OFFSET)) == rate,
            forall|j: u8| 2 <= j < 8 ==> bit(final (self)@, j) == bit(old(self)@, j),
    {
        let code = encode_rate(rate);
        self.0 = (self.0 & !(ODR_MASK << ODR_OFFSET)) | ((code & ODR_MASK) << ODR_OFFSET);
        proof {
            lemma_set_field_get(old(self)@, ODR_MASK, ODR_OFFSET, code, 2);
            lemma_low_mask_identity(code, ODR_MASK);
            lemma_set_field_frame(old(self)@, ODR_MASK, ODR_OFFSET, code, 2);
        }
    }
}

/// The 2-bit field code of `rate`, as executable code.
fn encode_rate(rate: DataRate) -> (r: u8)
    ensures
        r == rate_code(rate),
{
    match rate {
        DataRate::OneShot => 0b00,
        DataRate::Continuous1Hz => 0b01,
        DataRate::Continuous7Hz => 0b10,
        DataRate::Continuous12_5Hz => 0b11,
    }
}

/// Read/modify/write snapshot of CTRL_REG2: boot, heater, one-shot trigger.
#[derive(Clone, Copy)]
pub struct CtrlReg2(u8);

impl View for CtrlReg2 {
    type V = u8;

    /// The raw register byte of the snapshot.
    closed spec fn view(&self) -> u8 {
        self.0
    }
}

impl CtrlReg2 {
    /// Blocking read of the CTRL_REG2 register over `comm`.  Issues exactly
    /// one write-then-read transaction and never a write transaction.
    pub fn new<Comm: I2C>(comm: &mut Comm) -> (r: Result<Self, Comm::Error>)
        ensures
            r matches Ok(reg) ==> final (comm).history() == old(comm).history().push(
                write_read_txn(I2C_ID, seq![CTRL_REG2_ADDR], seq![reg@]),
            ),
            r is Err ==> final (comm).history() == old(comm).history(),
            write_count(final (comm).history()) == write_count(old(comm).history()),
    {
        let bits = match crate::transport::read_register(comm, CTRL_REG2_ADDR) {
            Ok(b) => b,
            Err(e) => {
                return Err(e);
            },
        };
        proof {
            lemma_write_count_push_read(
                old(comm).history(),
                write_read_txn(I2C_ID, seq![CTRL_REG2_ADDR], seq![bits]),
            );
        }
        Ok(CtrlReg2(bits))
    }

    /// Updates the snapshot with `f`, then commits the whole snapshot byte to
    /// the chip in exactly one write transaction — even when `f` changes
    /// nothing.
    pub fn modify<Comm, F>(&mut self, comm: &mut Comm, f: F) -> (r: Result<(), Comm::Error>) where
        Comm: I2C,
        F: FnOnce(CtrlReg2) -> CtrlReg2,

        requires
            call_requires(f, (*old(self),)),
        ensures
            call_ensures(f, (*old(self),), *final (self)),
            r is Ok ==> final (comm).history() == old(comm).history().push(
                write_txn(I2C_ID, seq![CTRL_REG2_ADDR, final (self)@]),
            ),
            r is Err ==> final (comm).history() == old(comm).history(),
    {
        let updated = f(*self);
        *self = updated;
        crate::transport::write_register(comm, CTRL_REG2_ADDR, self.0)
    }

    /// Returns true if the boot bit is still set, that is, the reload of the
    /// factory calibration trim has not completed yet.
    pub fn is_booting(&self) -> (r: bool)
        ensures
            r == bit(self@, BOOT_BIT),
    {
        self.0 & (1u8 << BOOT_BIT) > 0
    }

    /// Sets the boot bit, asking the chip to reload its factory calibration
    /// trim from non-volatile storage.  Hardware clears the bit when the
    /// reload completes, so poll a fresh snapshot rather than this one.  No
    /// other bit of the snapshot changes.
    pub fn boot(&mut self)
        ensures
            final (self)@ == with_bit_set(old(self)@, BOOT_BIT),
            bit(final (self)@, BOOT_BIT),
            forall|j: u8| j < 8 && j != BOOT_BIT ==> bit(final (self)@, j) == bit(old(self)@, j),
    {
        self.0 = self.0 | (1u8 << BOOT_BIT);
        proof {
            lemma_with_bit_set(old(self)@, BOOT_BIT);
        }
    }

    /// Returns true if the heating element is on.
    pub fn is_heater_on(&self) -> (r: bool)
        ensures
            r == bit(self@, HEATER_BIT),
    {
        self.0 & (1u8 << HEATER_BIT) > 0
    }

    /// Enables the heating element.  No other bit of the snapshot changes.
    pub fn set_heater_on(&mut self)
        ensures
            final (self)@ == with_bit_set(old(self)@, HEATER_BIT),
            bit(final (self)@, HEATER_BIT),
            forall|j: u8| j < 8 && j != HEATER_BIT ==> bit(final (self)@, j) == bit(old(self)@, j),
    {
        self.0 = self.0 | (1u8 << HEATER_BIT);
        proof {
            lemma_with_bit_set(old(self)@, HEATER_BIT);
        }
    }

    /// Disables the heating element.  No other bit of the snapshot changes.
    pub fn set_heater_off(&mut self)
        ensures
            final (self)@ == with_bit_cleared(old(self)@, HEATER_BIT),
            !bit(final (self)@, HEATER_BIT),
            forall|j: u8| j < 8 && j != HEATER_BIT ==> bit(final (self)@, j) == bit(old(self)@, j),
    {
        self.0 = self.0 & !(1u8 << HEATER_BIT);
        proof {
            lemma_with_bit_cleared(old(self)@, HEATER_BIT);
        }
    }

    /// Returns true if a one-shot conversion is pending.
    pub fn is_one_shot(&self) -> (r: bool)
        ensures
            r == bit(self@, ONE_SHOT_BIT),
    {
        self.0 & (1u8 << ONE_SHOT_BIT) > 0
    }

    /// Requests a single conversion in one-shot data-rate mode.  Hardware
    /// clears the bit when the conversion completes.  No other bit of the
    /// snapshot changes.
    pub fn set_one_shot(&mut self)
        ensures
            final (self)@ == with_bit_set(old(self)@, ONE_SHOT_BIT),
            bit(final (self)@, ONE_SHOT_BIT),
            forall|j: u8|
                j < 8 && j != ONE_SHOT_BIT ==> bit(final (self)@, j) == bit(old(self)@, j),
    {
        self.0 = self.0 | (1u8 << ONE_SHOT_BIT);
        proof {
            lemma_with_bit_set(old(self)@, ONE_SHOT_BIT);
        }
    }
}

/// Read/modify/write snapshot of CTRL_REG3: data-ready signal routing.
#[derive(Clone, Copy)]
pub struct CtrlReg3(u8);

impl View for CtrlReg3 {
    type V = u8;

    /// The raw register byte of the snapshot.
    closed spec fn view(&self) -> u8 {
        self.0
    }
}

impl CtrlReg3 {
    /// Blocking read of the CTRL_REG3 register over `comm`.  Issues exactly
    /// one write-then-read transaction and never a write transaction.
    pub fn new<Comm: I2C>(comm: &mut Comm) -> (r: Result<Self, Comm::Error>)
        ensures
            r matches Ok(reg) ==> final (comm).history() == old(comm).history().push(
                write_read_txn(I2C_ID, seq![CTRL_REG3_ADDR], seq![reg@]),
            ),
            r is Err ==> final (comm).history() == old(comm).history(),
            write_count(final (comm).history()) == write_count(old(comm).history()),
    {
        let bits = match crate::transport::read_register(comm, CTRL_REG3_ADDR) {
            Ok(b) => b,
            Err(e) => {
                return Err(e);
            },
        };
        proof {
            lemma_write_count_push_read(
                old(comm).history(),
                write_read_txn(I2C_ID, seq![CTRL_REG3_ADDR], seq![bits]),
            );
        }
        Ok(CtrlReg3(bits))
    }

    /// Updates the snapshot with `f`, then commits the whole snapshot byte to
    /// the chip in exactly one write transaction — even when `f` changes
    /// nothing.
    pub fn modify<Comm, F>(&mut self, comm: &mut Comm, f: F) -> (r: Result<(), Comm::Error>) where
        Comm: I2C,
        F: FnOnce(CtrlReg3) -> CtrlReg3,

        requires
            call_requires(f, (*old(self),)),
        ensures
            call_ensures(f, (*old(self),), *final (self)),
            r is Ok ==> final (comm).history() == old(comm).history().push(
                write_txn(I2C_ID, seq![CTRL_REG3_ADDR, final (self)@]),
            ),
            r is Err ==> final (comm).history() == old(comm).history(),
    {
        let updated = f(*self);
        *self = updated;
        crate::transport::write_register(comm, CTRL_REG3_ADDR, self.0)
    }

    /// Routes the data-ready signal as active-high: ready = high, not ready =
    /// low.  No other bit of the snapshot changes.
    pub fn data_ready_high(&mut self)
        ensures
            final (self)@ == with_bit_cleared(old(self)@, DRDY_H_L_BIT),
            !bit(final (self)@, DRDY_H_L_BIT),
            forall|j: u8|
                j < 8 && j != DRDY_H_L_BIT ==> bit(final (self)@, j) == bit(old(self)@, j),
    {
        self.0 = self.0 & !(1u8 << DRDY_H_L_BIT);
        proof {
            lemma_with_bit_cleared(old(self)@, DRDY_H_L_BIT);
        }
    }

    /// Routes the data-ready signal as active-low: ready = low, not ready =
    /// high.  No other bit of the snapshot changes.
    pub fn data_ready_low(&mut self)
        ensures
            final (self)@ == with_bit_set(old(self)@, DRDY_H_L_BIT),
            bit(final (self)@, DRDY_H_L_BIT),
            forall|j: u8|
                j < 8 && j != DRDY_H_L_BIT ==> bit(final (self)@, j) == bit(old(self)@, j),
    {
        self.0 = self.0 | (1u8 << DRDY_H_L_BIT);
        proof {
            lemma_with_bit_set(old(self)@, DRDY_H_L_BIT);
        }
    }

    /// Sets the data-ready output pin to push-pull drive.  No other bit of
    /// the snapshot changes.
    pub fn data_ready_push_pull(&mut self)
        ensures
            final (self)@ == with_bit_cleared(old(self)@, PP_OD_BIT),
            !bit(final (self)@, PP_OD_BIT),
            forall|j: u8| j < 8 && j != PP_OD_BIT ==> bit(final (self)@, j) == bit(old(self)@, j),
    {
        self.0 = self.0 & !(1u8 << PP_OD_BIT);
        proof {
            lemma_with_bit_cleared(old(self)@, PP_OD_BIT);
        }
    }

    /// Sets the data-ready output pin to open-drain drive.  No other bit of
    /// the snapshot changes.
    pub fn data_ready_open_drain(&mut self)
        ensures
            final (self)@ == with_bit_set(old(self)@, PP_OD_BIT),
            bit(final (self)@, PP_OD_BIT),
            forall|j: u8| j < 8 && j != PP_OD_BIT ==> bit(final (self)@, j) == bit(old(self)@, j),
    {
        self.0 = self.0 | (1u8 << PP_OD_BIT);
        proof {
            lemma_with_bit_set(old(self)@, PP_OD_BIT);
        }
    }

    /// Disables the data-ready signal on the interrupt pin.  No other bit of
    /// the snapshot changes.
    pub fn data_ready_disable(&mut self)
        ensures
            final (self)@ == with_bit_cleared(old(self)@, DRDY_BIT),
            !bit(final (self)@, DRDY_BIT),
            forall|j: u8| j < 8 && j != DRDY_BIT ==> bit(final (self)@, j) == bit(old(self)@, j),
    {
        self.0 = self.0 & !(1u8 << DRDY_BIT);
        proof {
            lemma_with_bit_cleared(old(self)@, DRDY_BIT);
        }
    }

    /// Enables the data-ready signal on the interrupt pin.  No other bit of
    /// the snapshot changes.
    pub fn data_ready_enable(&mut self)
        ensures
            final (self)@ == with_bit_set(old(self)@, DRDY_BIT),
            bit(final (self)@, DRDY_BIT),
            forall|j: u8| j < 8 && j != DRDY_BIT ==> bit(final (self)@, j) == bit(old(self)@, j),
    {
        self.0 = self.0 | (1u8 << DRDY_BIT);
        proof {
            lemma_with_bit_set(old(self)@, DRDY_BIT);
        }
    }
}

} // verus!
