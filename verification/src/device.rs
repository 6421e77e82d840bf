use vstd::prelude::*;

use crate::endianness::Endianness;

verus! {

/// A fault reported by a memory-mapped device. The direction (read vs
/// write) is always preserved so a caller can tell a bad load from a bad
/// store.
#[derive(Debug, PartialEq, Clone)]
pub enum DeviceError {
    InvalidAddressWriteFault,
    InvalidAddressReadFault,
    InvalidSizeWriteFault,
    InvalidSizeReadFault,
    InternalDeviceError(String),
}

/// 256 raised to `n`: the number of values `n` bytes can hold.
pub open spec fn pow256(n: nat) -> nat
    decreases n,
{
    if n == 0 {
        1
    } else {
        256 * pow256((n - 1) as nat)
    }
}

/// The unsigned integer stored by `bytes` in little-endian order.
pub open spec fn spec_int_le(bytes: Seq<u8>) -> nat
    decreases bytes.len(),
{
    if bytes.len() == 0 {
        0
    } else {
        (bytes[0] + 256 * spec_int_le(bytes.drop_first())) as nat
    }
}

/// The unsigned integer stored by `bytes` in big-endian order.
pub open spec fn spec_int_be(bytes: Seq<u8>) -> nat
    decreases bytes.len(),
{
    if bytes.len() == 0 {
        0
    } else {
        (bytes.last() + 256 * spec_int_be(bytes.drop_last())) as nat
    }
}

/// The unsigned integer stored by `bytes` in the given byte order.
pub open spec fn spec_int_raw(bytes: Seq<u8>, endianness: Endianness) -> nat {
    match endianness {
        Endianness::LittleEndian => spec_int_le(bytes),
        Endianness::BigEndian => spec_int_be(bytes),
    }
}

/// The 64-bit value an integer read yields: the raw packed value,
/// sign-extended into the upper bits when asked for and the stored sign bit
/// is set.
pub open spec fn spec_int_value(bytes: Seq<u8>, endianness: Endianness, sign_extend: bool) -> nat {
    let raw = spec_int_raw(bytes, endianness);
    if sign_extend && bytes.len() < 8 && raw >= 128 * pow256((bytes.len() - 1) as nat) {
        (raw + 0x1_0000_0000_0000_0000 - pow256(bytes.len())) as nat
    } else {
        raw
    }
}

/// The `n` low-order bytes of `v`, least significant first.
pub open spec fn spec_bytes_le(v: nat, n: nat) -> Seq<u8>
    decreases n,
{
    if n == 0 {
        Seq::empty()
    } else {
        seq![(v % 256) as u8] + spec_bytes_le(v / 256, (n - 1) as nat)
    }
}

/// The `n` low-order bytes of `v`, most significant first.
pub open spec fn spec_bytes_be(v: nat, n: nat) -> Seq<u8> {
    spec_bytes_le(v, n).reverse()
}

/// The `n` low-order bytes of `v` in the given byte order.
pub open spec fn spec_bytes_of(v: nat, n: nat, endianness: Endianness) -> Seq<u8> {
    match endianness {
        Endianness::LittleEndian => spec_bytes_le(v, n),
        Endianness::BigEndian => spec_bytes_be(v, n),
    }
}

/// `pow256` is positive.
pub proof fn lemma_pow256_positive(n: nat)
    ensures
        pow256(n) >= 1,
    decreases n,
{
    if n > 0 {
        lemma_pow256_positive((n - 1) as nat);
    }
}

/// Packing the bytes of a value recovers the value, modulo the range the
/// bytes can hold: the little-endian half of the load/store round trip.
pub proof fn lemma_le_round_trip(v: nat, n: nat)
    ensures
        spec_bytes_le(v, n).len() == n,
        spec_int_le(spec_bytes_le(v, n)) == v % pow256(n),
    decreases n,
{
    if n > 0 {
        lemma_le_round_trip(v / 256, (n - 1) as nat);
        lemma_pow256_positive((n - 1) as nat);
        assert(spec_bytes_le(v, n).drop_first() =~= spec_bytes_le(v / 256, (n - 1) as nat));
        vstd::arithmetic::div_mod::lemma_breakdown(
            v as int,
            256,
            pow256((n - 1) as nat) as int,
        );
    }
}

/// Reading bytes back most-significant-first undoes a least-significant-first
/// packing: the two byte orders pack the same value from mirrored bytes.
pub proof fn lemma_int_be_reverse(bytes: Seq<u8>)
    ensures
        spec_int_be(bytes.reverse()) == spec_int_le(bytes),
    decreases bytes.len(),
{
    if bytes.len() > 0 {
        lemma_int_be_reverse(bytes.drop_first());
        assert(bytes.reverse().last() == bytes[0]);
        assert(bytes.reverse().drop_last() =~= bytes.drop_first().reverse());
    }
}

/// The capability contract every memory-mapped component satisfies: an
/// address-space size, bounds-checked byte access, and integer access that
/// packs and unpacks bytes in a chosen byte order.
pub trait Device: Sized {
    /// Device-specific well-formedness.
    spec fn inv(&self) -> bool;

    /// The size of the device's address space, in bytes.
    spec fn size_spec(&self) -> nat;

    fn get_address_space_size(&self) -> (r: usize)
        requires
            self.inv(),
        ensures
            r == self.size_spec(),
    ;

    fn read_bytes(&self, address: usize, size: usize) -> (r: Result<Vec<u8>, DeviceError>)
        requires
            self.inv(),
        ensures
            r is Ok ==> r.unwrap()@.len() == size,
    ;

    fn write_bytes(&mut self, address: usize, binary: &[u8]) -> (r: Result<(), DeviceError>)
        requires
            old(self).inv(),
        ensures
            final(self).inv(),
            final(self).size_spec() == old(self).size_spec(),
    ;

    fn read_int(
        &self,
        address: usize,
        size: usize,
        endianness: Endianness,
        sign_extend: bool,
    ) -> (r: Result<u64, DeviceError>)
        requires
            self.inv(),
    ;

    fn write_int(
        &mut self,
        address: usize,
        value: u64,
        size: usize,
        endianness: Endianness,
    ) -> (r: Result<(), DeviceError>)
        requires
            old(self).inv(),
        ensures
            final(self).inv(),
            final(self).size_spec() == old(self).size_spec(),
    ;
}

} // verus!
