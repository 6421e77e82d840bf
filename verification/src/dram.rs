use vstd::prelude::*;

use crate::device::{Device, DeviceError, spec_int_value, spec_int_raw, spec_int_le, spec_int_be,
    spec_bytes_of, spec_bytes_le, pow256, lemma_le_round_trip, lemma_int_be_reverse};
use crate::endianness::Endianness;

verus! {

/// A flat byte store covering a flat address space of the given size.
pub struct DRAM {
    size: usize,
    memory: Vec<u8>,
}

/// The bytes after overwriting `mem[address .. address + data.len()]` with
/// `data`.
pub open spec fn spec_store_bytes(mem: Seq<u8>, address: int, data: Seq<u8>) -> Seq<u8> {
    Seq::new(
        mem.len(),
        |j: int|
            if address <= j < address + data.len() {
                data[j - address]
            } else {
                mem[j]
            },
    )
}

/// Whether `size` is a width an integer access accepts.
pub open spec fn valid_int_size(size: usize) -> bool {
    size == 1 || size == 2 || size == 4 || size == 8
}

impl View for DRAM {
    type V = Seq<u8>;

    closed spec fn view(&self) -> Seq<u8> {
        self.memory@
    }
}

impl DRAM {
    /// Well-formedness: the store holds exactly `size` bytes.
    pub closed spec fn inv(self) -> bool {
        self.memory@.len() == self.size
    }

    /// The device's address-space size.
    pub closed spec fn size_spec(self) -> nat {
        self.size as nat
    }

    /// A zero-filled memory of `size` bytes.
    pub fn new(size: usize) -> (r: DRAM)
        ensures
            r.inv(),
            r.size_spec() == size,
            r@ == Seq::new(size as nat, |i: int| 0u8),
    {
        let mut memory: Vec<u8> = Vec::new();
        let mut i: usize = 0;
        while i < size
            invariant
                i <= size,
                memory@.len() == i,
                forall|j: int| 0 <= j < i ==> memory@[j] == 0u8,
            decreases size - i,
        {
            memory.push(0);
            i = i + 1;
        }
        let r = DRAM { size, memory };
        proof {
            assert(r@ =~= Seq::new(size as nat, |i: int| 0u8));
        }
        r
    }

    /// The size this memory was created with.
    pub fn get_address_space_size(&self) -> (r: usize)
        requires
            self.inv(),
        ensures
            r == self.size_spec(),
    {
        self.size
    }

    /// Read `size` bytes starting at `address`; a range that leaves the
    /// address space is an invalid-address fault.
    pub fn read_bytes(&self, address: usize, size: usize) -> (r: Result<Vec<u8>, DeviceError>)
        requires
            self.inv(),
        ensures
            address + size <= self.size_spec() ==> r is Ok && r.unwrap()@ == self@.subrange(
                address as int,
                address + size,
            ),
            address + size > self.size_spec() ==> r == Err::<Vec<u8>, DeviceError>(
                DeviceError::InvalidAddressReadFault,
            ),
    {
        if size > self.size || address > self.size - size {
            return Err(DeviceError::InvalidAddressReadFault);
        }
        let mut out: Vec<u8> = Vec::new();
        let mut i: usize = 0;
        while i < size
            invariant
                i <= size,
                address + size <= self.memory@.len(),
                self.inv(),
                out@.len() == i,
                forall|j: int| 0 <= j < i ==> out@[j] == self@[address + j],
            decreases size - i,
        {
            out.push(self.memory[address + i]);
            i = i + 1;
        }
        proof {
            assert(out@ =~= self@.subrange(address as int, address + size));
        }
        Ok(out)
    }

    /// Overwrite the bytes starting at `address` with `binary`; a range that
    /// leaves the address space is an invalid-address fault and changes
    /// nothing.
    pub fn write_bytes(&mut self, address: usize, binary: &[u8]) -> (r: Result<(), DeviceError>)
        requires
            old(self).inv(),
        ensures
            final(self).inv(),
            final(self).size_spec() == old(self).size_spec(),
            address + binary@.len() <= old(self).size_spec() ==> r == Ok::<(), DeviceError>(())
                && final(self)@ == spec_store_bytes(old(self)@, address as int, binary@),
            address + binary@.len() > old(self).size_spec() ==> r == Err::<(), DeviceError>(
                DeviceError::InvalidAddressWriteFault,
            ) && final(self)@ == old(self)@,
    {
        let len = binary.len();
        if len > self.size || address > self.size - len {
            return Err(DeviceError::InvalidAddressWriteFault);
        }
        let mut i: usize = 0;
        while i < len
            invariant
                i <= len,
                len == binary@.len(),
                address + len <= self.memory@.len(),
                self.inv(),
                self.size_spec() == old(self).size_spec(),
                self.memory@.len() == old(self).memory@.len(),
                forall|j: int|
                    0 <= j < self.memory@.len() ==> self.memory@[j] == (if address <= j < address
                        + i {
                        binary@[j - address]
                    } else {
                        old(self)@[j]
                    }),
            decreases len - i,
        {
            let b = binary[i];
            self.memory.set(address + i, b);
            i = i + 1;
        }
        proof {
            assert(self@ =~= spec_store_bytes(old(self)@, address as int, binary@));
        }
        Ok(())
    }

    /// Read an integer of `size` bytes at `address` in the given byte order,
    /// optionally sign-extended into the 64-bit result. The address range is
    /// checked first, then the width.
    pub fn read_int(
        &self,
        address: usize,
        size: usize,
        endianness: Endianness,
        sign_extend: bool,
    ) -> (r: Result<u64, DeviceError>)
        requires
            self.inv(),
        ensures
            address + size > self.size_spec() ==> r == Err::<u64, DeviceError>(
                DeviceError::InvalidAddressReadFault,
            ),
            address + size <= self.size_spec() && !valid_int_size(size) ==> r == Err::<
                u64,
                DeviceError,
            >(DeviceError::InvalidSizeReadFault),
            address + size <= self.size_spec() && valid_int_size(size) ==> r is Ok
                && r.unwrap() == spec_int_value(
                self@.subrange(address as int, address + size),
                endianness,
                sign_extend,
            ),
    {
        if size > self.size || address > self.size - size {
            return Err(DeviceError::InvalidAddressReadFault);
        }
        if !(size == 1 || size == 2 || size == 4 || size == 8) {
            return Err(DeviceError::InvalidSizeReadFault);
        }
        let ghost window = self@.subrange(address as int, address + size);
        let mut raw: u64 = 0;
        let mut i: usize = 0;
        match endianness {
            Endianness::LittleEndian => {
                while i < size
                    invariant
                        i <= size,
                        address + size <= self.memory@.len(),
                        self.inv(),
                        valid_int_size(size),
                        window == self@.subrange(address as int, address + size),
                        raw == spec_int_le(window.subrange((size - i) as int, size as int)),
                        raw < pow256(i as nat),
                    decreases size - i,
                {
                    let b = self.memory[address + (size - 1 - i)];
                    proof {
                        assert(window.subrange((size - i - 1) as int, size as int).drop_first()
                            =~= window.subrange((size - i) as int, size as int));
                        assert(window.subrange((size - i - 1) as int, size as int)[0] == b);
                        assert(raw * 256 + b < 256 * pow256(i as nat)) by (nonlinear_arith)
                            requires
                                raw < pow256(i as nat),
                                b < 256,
                        ;
                        assert(pow256((i + 1) as nat) == 256 * pow256(i as nat));
                        lemma_pow256_le_u64(((i + 1)) as nat);
                    }
                    raw = raw * 256 + (b as u64);
                    i = i + 1;
                }
                proof {
                    assert(window.subrange(0, size as int) =~= window);
                }
            },
            Endianness::BigEndian => {
                while i < size
                    invariant
                        i <= size,
                        address + size <= self.memory@.len(),
                        self.inv(),
                        valid_int_size(size),
                        window == self@.subrange(address as int, address + size),
                        raw == spec_int_be(window.subrange(0, i as int)),
                        raw < pow256(i as nat),
                    decreases size - i,
                {
                    let b = self.memory[address + i];
                    proof {
                        assert(window.subrange(0, (i + 1) as int).drop_last() =~= window.subrange(
                            0,
                            i as int,
                        ));
                        assert(window.subrange(0, (i + 1) as int).last() == b);
                        assert(raw * 256 + b < 256 * pow256(i as nat)) by (nonlinear_arith)
                            requires
                                raw < pow256(i as nat),
                                b < 256,
                        ;
                        assert(pow256((i + 1) as nat) == 256 * pow256(i as nat));
                        lemma_pow256_le_u64(((i + 1)) as nat);
                    }
                    raw = raw * 256 + (b as u64);
                    i = i + 1;
                }
                proof {
                    assert(window.subrange(0, size as int) =~= window);
                }
            },
        }
        if sign_extend && size < 8 {
            let pow: u64 = pow256_u64(size);
            let half: u64 = pow / 2;
            proof {
                lemma_pow256_vals();
                assert(128 * pow256((size - 1) as nat) == pow256(size as nat) / 2);
            }
            if raw >= half {
                let extended = raw + (u64::MAX - pow + 1);
                return Ok(extended);
            }
        }
        Ok(raw)
    }

    /// Write the `size` low-order bytes of `value` at `address` in the given
    /// byte order. The address range is checked first, then the width.
    pub fn write_int(
        &mut self,
        address: usize,
        value: u64,
        size: usize,
        endianness: Endianness,
    ) -> (r: Result<(), DeviceError>)
        requires
            old(self).inv(),
        ensures
            final(self).inv(),
            final(self).size_spec() == old(self).size_spec(),
            address + size > old(self).size_spec() ==> r == Err::<(), DeviceError>(
                DeviceError::InvalidAddressWriteFault,
            ) && final(self)@ == old(self)@,
            address + size <= old(self).size_spec() && !valid_int_size(size) ==> r == Err::<
                (),
                DeviceError,
            >(DeviceError::InvalidSizeWriteFault) && final(self)@ == old(self)@,
            address + size <= old(self).size_spec() && valid_int_size(size) ==> r == Ok::<
                (),
                DeviceError,
            >(()) && final(self)@ == spec_store_bytes(
                old(self)@,
                address as int,
                spec_bytes_of(value as nat, size as nat, endianness),
            ),
    {
        if size > self.size || address > self.size - size {
            return Err(DeviceError::InvalidAddressWriteFault);
        }
        if !(size == 1 || size == 2 || size == 4 || size == 8) {
            return Err(DeviceError::InvalidSizeWriteFault);
        }
        let mut bytes: Vec<u8> = Vec::new();
        let mut v: u64 = value;
        let mut i: usize = 0;
        while i < size
            invariant
                i <= size,
                bytes@.len() == i,
                bytes@ + spec_bytes_le(v as nat, (size - i) as nat) == spec_bytes_le(
                    value as nat,
                    size as nat,
                ),
            decreases size - i,
        {
            proof {
                assert(spec_bytes_le(v as nat, (size - i) as nat) == seq![(v as nat % 256) as u8]
                    + spec_bytes_le(v as nat / 256, (size - i - 1) as nat));
                assert((bytes@ + seq![(v % 256) as u8]) + spec_bytes_le(
                    v as nat / 256,
                    (size - i - 1) as nat,
                ) =~= bytes@ + (seq![(v as nat % 256) as u8] + spec_bytes_le(
                    v as nat / 256,
                    (size - i - 1) as nat,
                )));
            }
            bytes.push((v % 256) as u8);
            v = v / 256;
            i = i + 1;
        }
        proof {
            assert(spec_bytes_le(v as nat, 0) =~= Seq::<u8>::empty());
            assert(bytes@ + Seq::<u8>::empty() =~= bytes@);
        }
        match endianness {
            Endianness::LittleEndian => {
                let r = self.write_bytes(address, bytes.as_slice());
                proof {
                    assert(bytes@ == spec_bytes_of(value as nat, size as nat, Endianness::LittleEndian));
                }
                r
            },
            Endianness::BigEndian => {
                let mut rev: Vec<u8> = Vec::new();
                let mut j: usize = size;
                while j > 0
                    invariant
                        j <= size,
                        bytes@.len() == size,
                        rev@.len() == size - j,
                        forall|k: int| 0 <= k < size - j ==> rev@[k] == bytes@[size - 1 - k],
                    decreases j,
                {
                    j = j - 1;
                    rev.push(bytes[j]);
                }
                proof {
                    assert(rev@ =~= bytes@.reverse());
                }
                self.write_bytes(address, rev.as_slice())
            },
        }
    }
}

/// 256 to the `size`, for the widths below 8 where it fits a u64.
fn pow256_u64(size: usize) -> (r: u64)
    requires
        size < 8,
    ensures
        r == pow256(size as nat),
{
    proof {
        lemma_pow256_vals();
    }
    match size {
        0 => 1,
        1 => 0x100,
        2 => 0x1_0000,
        3 => 0x100_0000,
        4 => 0x1_0000_0000,
        5 => 0x100_0000_0000,
        6 => 0x1_0000_0000_0000,
        _ => 0x100_0000_0000_0000,
    }
}

/// `pow256` of at most 8 fits the 64-bit range.
proof fn lemma_pow256_le_u64(n: nat)
    requires
        n <= 8,
    ensures
        pow256(n) <= 0x1_0000_0000_0000_0000,
{
    lemma_pow256_vals();
}

/// The concrete values of `pow256` up to 8.
proof fn lemma_pow256_vals()
    ensures
        pow256(0) == 1,
        pow256(1) == 0x100,
        pow256(2) == 0x1_0000,
        pow256(3) == 0x100_0000,
        pow256(4) == 0x1_0000_0000,
        pow256(5) == 0x100_0000_0000,
        pow256(6) == 0x1_0000_0000_0000,
        pow256(7) == 0x100_0000_0000_0000,
        pow256(8) == 0x1_0000_0000_0000_0000,
{
    reveal_with_fuel(pow256, 9);
}

/// A well-formed memory's contents cover exactly its address space.
pub proof fn lemma_dram_view_len(d: DRAM)
    requires
        d.inv(),
    ensures
        d@.len() == d.size_spec(),
{
}

/// Integer round trip through a flat memory: the low bytes a write of
/// `value` stores at an address pack back, in the same byte order, to
/// `value` reduced to the written width.
pub proof fn lemma_int_round_trip(
    mem: Seq<u8>,
    address: int,
    value: u64,
    size: int,
    endianness: Endianness,
)
    requires
        0 <= address,
        address + size <= mem.len(),
        valid_int_size(size as usize),
        0 <= size <= 8,
    ensures
        spec_int_raw(
            spec_store_bytes(
                mem,
                address,
                spec_bytes_of(value as nat, size as nat, endianness),
            ).subrange(address, address + size),
            endianness,
        ) == (value as nat) % pow256(size as nat),
{
    lemma_le_round_trip(value as nat, size as nat);
    let data = spec_bytes_of(value as nat, size as nat, endianness);
    assert(data.len() == size);
    assert(spec_store_bytes(mem, address, data).subrange(address, address + size) =~= data);
    match endianness {
        Endianness::LittleEndian => {},
        Endianness::BigEndian => {
            lemma_int_be_reverse(spec_bytes_le(value as nat, size as nat));
        },
    }
}

impl Device for DRAM {
    open spec fn inv(&self) -> bool {
        DRAM::inv(*self)
    }

    open spec fn size_spec(&self) -> nat {
        DRAM::size_spec(*self)
    }

    fn get_address_space_size(&self) -> (r: usize) {
        DRAM::get_address_space_size(self)
    }

    fn read_bytes(&self, address: usize, size: usize) -> (r: Result<Vec<u8>, DeviceError>) {
        DRAM::read_bytes(self, address, size)
    }

    fn write_bytes(&mut self, address: usize, binary: &[u8]) -> (r: Result<(), DeviceError>) {
        DRAM::write_bytes(self, address, binary)
    }

    fn read_int(
        &self,
        address: usize,
        size: usize,
        endianness: Endianness,
        sign_extend: bool,
    ) -> (r: Result<u64, DeviceError>) {
        DRAM::read_int(self, address, size, endianness, sign_extend)
    }

    fn write_int(
        &mut self,
        address: usize,
        value: u64,
        size: usize,
        endianness: Endianness,
    ) -> (r: Result<(), DeviceError>) {
        DRAM::write_int(self, address, value, size, endianness)
    }
}

} // verus!
