//! Bit manipulation helpers.

use vstd::prelude::*;

verus! {

/// Whether bit `i` of `mask` is set.
pub open spec fn bit_is_set(mask: u32, i: u32) -> bool {
    (mask >> i) & 1 == 1
}

/// Generate a mask where all bits >= `l` and <= `h` are set.
///
/// With `l > h` no bit lies between the two, and the mask is empty.
pub fn genmask(h: u32, l: u32) -> (mask: u32)
    requires
        h < 32,
        l < 32,
    ensures
        forall|i: u32| i < 32 ==> (#[trigger] bit_is_set(mask, i) <==> l <= i <= h),
        l <= h ==> mask == (1u64 << (h + 1) as u64) - (1u64 << l as u64),
        l > h ==> mask == 0,
{
    let low: u32 = 1u32 << l;
    let high: u32 = (!0u32) >> (32 - 1 - h);
    assert(low >= 1 && !0u32 == u32::MAX) by (bit_vector)
        requires
            low == 1u32 << l,
            l < 32,
    ;
    let mask: u32 = ((!0u32) - low + 1) & high;
    assert({
        &&& forall|i: u32| i < 32 ==> ((mask >> i) & 1 == 1 <==> l <= i <= h)
        &&& l <= h ==> mask == (1u64 << (h + 1) as u64) - (1u64 << l as u64)
        &&& l > h ==> mask == 0
    }) by (bit_vector)
        requires
            h < 32,
            l < 32,
            low == 1u32 << l,
            high == (!0u32) >> (31 - h) as u32,
            mask == (((!0u32) - low + 1) as u32) & high,
    ;
    mask
}

} // verus!
