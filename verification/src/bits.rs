//! Bit and bitfield arithmetic on single register bytes.
//!
//! Every register of the chip is one byte wide; a bitfield is a `(mask, offset)`
//! pair selecting a sub-range of that byte.  Decoding extracts
//! `(byte >> offset) & mask`; encoding clears that range and ORs in
//! `(value & mask) << offset`.  The lemmas here are the frame properties the
//! register wrappers rely on: writing one bit or one field leaves every other
//! bit of the byte unchanged.

use vstd::prelude::*;

verus! {

/// True when bit `i` of `b` is set.
pub open spec fn bit(b: u8, i: u8) -> bool
    recommends
        i < 8,
{
    b & (1u8 << i) != 0
}

/// `b` with bit `i` set.
pub open spec fn with_bit_set(b: u8, i: u8) -> u8
    recommends
        i < 8,
{
    b | (1u8 << i)
}

/// `b` with bit `i` cleared.
pub open spec fn with_bit_cleared(b: u8, i: u8) -> u8
    recommends
        i < 8,
{
    b & !(1u8 << i)
}

/// The bitfield of `b` described by `mask` and `offset`.
pub open spec fn get_field(b: u8, mask: u8, offset: u8) -> u8
    recommends
        offset < 8,
{
    (b >> offset) & mask
}

/// `b` with the bitfield described by `mask` and `offset` replaced by
/// `value & mask`.
pub open spec fn set_field(b: u8, mask: u8, offset: u8, value: u8) -> u8
    recommends
        offset < 8,
{
    (b & !(mask << offset)) | ((value & mask) << offset)
}

/// Setting one bit sets that bit and leaves every other bit of the byte
/// unchanged.
pub proof fn lemma_with_bit_set(b: u8, i: u8)
    requires
        i < 8,
    ensures
        bit(with_bit_set(b, i), i),
        forall|j: u8| j < 8 && j != i ==> bit(with_bit_set(b, i), j) == bit(b, j),
{
    assert(bit(with_bit_set(b, i), i)) by (bit_vector)
        requires
            i < 8,
    ;
    assert forall|j: u8| j < 8 && j != i implies bit(with_bit_set(b, i), j) == bit(b, j) by {
        assert(bit(with_bit_set(b, i), j) == bit(b, j)) by (bit_vector)
            requires
                i < 8,
                j < 8,
                i != j,
        ;
    }
}

/// Clearing one bit clears that bit and leaves every other bit of the byte
/// unchanged.
pub proof fn lemma_with_bit_cleared(b: u8, i: u8)
    requires
        i < 8,
    ensures
        !bit(with_bit_cleared(b, i), i),
        forall|j: u8| j < 8 && j != i ==> bit(with_bit_cleared(b, i), j) == bit(b, j),
{
    assert(!bit(with_bit_cleared(b, i), i)) by (bit_vector)
        requires
            i < 8,
    ;
    assert forall|j: u8| j < 8 && j != i implies bit(with_bit_cleared(b, i), j) == bit(b, j) by {
        assert(bit(with_bit_cleared(b, i), j) == bit(b, j)) by (bit_vector)
            requires
                i < 8,
                j < 8,
                i != j,
        ;
    }
}

/// The field shapes the chip's registers use: a 3-bit field at offset 0 or 3,
/// or a 2-bit field at offset 0, each of `width` bits.
pub open spec fn field_shape(mask: u8, offset: u8, width: u8) -> bool {
    (mask == 0b111 && width == 3 && (offset == 0 || offset == 3)) || (mask == 0b11 && width == 2
        && offset == 0)
}

/// Reading back a freshly written bitfield yields the written value.
pub proof fn lemma_set_field_get(b: u8, mask: u8, offset: u8, value: u8, width: u8)
    requires
        field_shape(mask, offset, width),
    ensures
        get_field(set_field(b, mask, offset, value), mask, offset) == value & mask,
{
    assert(get_field(set_field(b, mask, offset, value), mask, offset) == value & mask)
        by (bit_vector)
        requires
            field_shape(mask, offset, width),
    ;
}

/// Writing a bitfield of `width` bits at `offset` leaves the bits below the
/// field and the bits above it unchanged.
pub proof fn lemma_set_field_frame(b: u8, mask: u8, offset: u8, value: u8, width: u8)
    requires
        field_shape(mask, offset, width),
    ensures
        forall|j: u8|
            j < 8 && (j < offset || j >= offset + width) ==> bit(
                set_field(b, mask, offset, value),
                j,
            ) == bit(b, j),
{
    assert forall|j: u8|
        j < 8 && (j < offset || j >= offset + width) implies bit(
        set_field(b, mask, offset, value),
        j,
    ) == bit(b, j) by {
        assert(bit(set_field(b, mask, offset, value), j) == bit(b, j)) by (bit_vector)
            requires
                field_shape(mask, offset, width),
                j < 8,
                j < offset || j >= offset + width,
        ;
    }
}

/// A value no larger than a low-bits mask is unchanged by that mask.
pub proof fn lemma_low_mask_identity(value: u8, mask: u8)
    requires
        mask == 0b111 || mask == 0b11,
        value <= mask,
    ensures
        value & mask == value,
{
    assert(value & mask == value) by (bit_vector)
        requires
            mask == 0b111 || mask == 0b11,
            value <= mask,
    ;
}

} // verus!
