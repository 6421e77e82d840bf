use vstd::prelude::*;

verus! {

/// Mathematical meaning of sign extension: interpret the low `bits` bits of
/// `value` as a two's-complement number and replicate its sign bit into every
/// higher bit of the 64-bit word.
pub open spec fn spec_extend_sign(value: u64, bits: nat) -> u64 {
    if (value >> ((bits - 1) as u64)) & 1u64 == 1u64 {
        (value | (u64::MAX << (bits as u64))) as u64
    } else {
        value
    }
}

/// Replicate bit `bits - 1` of `value` into bits 63..=`bits`.
///
/// The low `bits` bits of the result equal those of `value` only when the
/// higher bits of `value` are clear, matching how the decoder uses it.
pub fn extend_sign(value: u64, bits: usize) -> (r: u64)
    requires
        1 <= bits < 64,
    ensures
        r == spec_extend_sign(value, bits as nat),
{
    let sign_bit = (value >> ((bits - 1) as u64)) & 1u64;
    if sign_bit == 1u64 {
        value | (u64::MAX << (bits as u64))
    } else {
        value
    }
}

/// Mathematical meaning of 16-bit sign extension, as `spec_extend_sign`.
pub open spec fn spec_extend_sign_u16(value: u16, bits: nat) -> u16 {
    if (value >> ((bits - 1) as u16)) & 1u16 == 1u16 {
        (value | (u16::MAX << (bits as u16))) as u16
    } else {
        value
    }
}

/// 16-bit variant of `extend_sign`.
pub fn extend_sign_u16(value: u16, bits: usize) -> (r: u16)
    requires
        1 <= bits < 16,
    ensures
        r == spec_extend_sign_u16(value, bits as nat),
{
    let sign_bit = (value >> ((bits - 1) as u16)) & 1u16;
    if sign_bit == 1u16 {
        value | (u16::MAX << (bits as u16))
    } else {
        value
    }
}

} // verus!
