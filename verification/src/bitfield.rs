//! Shift-and-mask helpers for reading and writing contiguous bit ranges
//! of the fixed-width words that descriptors are packed into.
//!
//! A range is half-open: `start` is the lowest bit touched and `end` is
//! one past the highest. Every helper is proved against the exact
//! shift/mask arithmetic its contract states.

use vstd::prelude::*;

verus! {

/// A word whose `width` lowest bits are set.
pub open spec fn low_mask_u64(width: u64) -> u64 {
    (((1u64 << width) as int) - 1) as u64
}

/// A 16-bit word whose `width` lowest bits are set.
pub open spec fn low_mask_u16(width: u16) -> u16 {
    (((1u16 << width) as int) - 1) as u16
}

/// The bits `start..end` of `value`, shifted down to bit 0.
pub fn get_bits_u64(value: u64, start: u64, end: u64) -> (r: u64)
    requires
        start < end <= 64,
        end - start < 64,
    ensures
        r == (value >> start) & low_mask_u64((end - start) as u64),
        r < (1u64 << ((end - start) as u64)),
{
    let width: u64 = end - start;
    proof {
        assert(width < 64 ==> (1u64 << width) >= 1) by (bit_vector);
        assert(width < 64 ==> ((value >> start) & (((1u64 << width) as int - 1) as u64)) < (1u64
            << width)) by (bit_vector);
    }
    let mask: u64 = (1u64 << width) - 1;
    (value >> start) & mask
}

/// `value` with bits `start..end` replaced by `field` and every other
/// bit unchanged.
pub fn set_bits_u64(value: u64, start: u64, end: u64, field: u64) -> (r: u64)
    requires
        start < end <= 64,
        end - start < 64,
        field < (1u64 << ((end - start) as u64)),
    ensures
        r == (value & !(low_mask_u64((end - start) as u64) << start)) | (field << start),
{
    let width: u64 = end - start;
    proof {
        assert(width < 64 ==> (1u64 << width) >= 1) by (bit_vector);
    }
    let mask: u64 = (1u64 << width) - 1;
    (value & !(mask << start)) | (field << start)
}

/// The bits `start..end` of the 16-bit word `value`, shifted down to
/// bit 0.
pub fn get_bits_u16(value: u16, start: u16, end: u16) -> (r: u16)
    requires
        start < end <= 16,
        end - start < 16,
    ensures
        r == (value >> start) & low_mask_u16((end - start) as u16),
        r < (1u16 << ((end - start) as u16)),
{
    let width: u16 = end - start;
    proof {
        assert(width < 16 ==> (1u16 << width) >= 1) by (bit_vector);
        assert(width < 16 ==> ((value >> start) & (((1u16 << width) as int - 1) as u16)) < (1u16
            << width)) by (bit_vector);
    }
    let mask: u16 = (1u16 << width) - 1;
    (value >> start) & mask
}

/// The 16-bit word `value` with bits `start..end` replaced by `field`
/// and every other bit unchanged.
pub fn set_bits_u16(value: u16, start: u16, end: u16, field: u16) -> (r: u16)
    requires
        start < end <= 16,
        end - start < 16,
        field < (1u16 << ((end - start) as u16)),
    ensures
        r == (value & !(low_mask_u16((end - start) as u16) << start)) | (field << start),
{
    let width: u16 = end - start;
    proof {
        assert(width < 16 ==> (1u16 << width) >= 1) by (bit_vector);
    }
    let mask: u16 = (1u16 << width) - 1;
    (value & !(mask << start)) | (field << start)
}

/// Whether bit `index` of the 16-bit word `value` is set.
pub fn get_bit_u16(value: u16, index: u16) -> (r: bool)
    requires
        index < 16,
    ensures
        r == ((value >> index) & 1 == 1),
{
    (value >> index) & 1 == 1
}

/// The 16-bit word `value` with bit `index` set to `bit` and every
/// other bit unchanged.
pub fn set_bit_u16(value: u16, index: u16, bit: bool) -> (r: u16)
    requires
        index < 16,
    ensures
        bit ==> r == value | (1u16 << index),
        !bit ==> r == value & !(1u16 << index),
{
    if bit {
        value | (1u16 << index)
    } else {
        value & !(1u16 << index)
    }
}

} // verus!
