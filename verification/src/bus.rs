use vstd::prelude::*;

use crate::device::{Device, DeviceError, spec_int_value, spec_int_raw, spec_bytes_of, pow256};
use crate::dram::{DRAM, spec_store_bytes, valid_int_size, lemma_dram_view_len, lemma_int_round_trip};
use crate::endianness::Endianness;
use crate::uart::UART;
use std::ops::Range;

verus! {

#[verifier::external_type_specification]
#[verifier::external_body]
#[verifier::reject_recursive_types(K)]
#[verifier::reject_recursive_types(V)]
pub struct ExRangeMap<K, V>(rangemap::RangeMap<K, V>);

/// What the interval map holds: for every covered address, the half-open
/// range stored around it and the value stored for that range.
pub uninterp spec fn spans_of(m: rangemap::RangeMap<usize, usize>) -> Map<int, (int, int, int)>;

/// Relies on rangemap::RangeMap::new: a fresh map covers no address.
#[verifier::external_body]
fn range_map_new() -> (m: rangemap::RangeMap<usize, usize>)
    ensures
        spans_of(m).dom() == Set::<int>::empty(),
{
    rangemap::RangeMap::new()
}

/// Relies on rangemap::RangeMap::insert: a non-empty range that overlaps no
/// stored range, and that no stored range of the same value touches, is
/// stored exactly as given, and every other address keeps its range.
#[verifier::external_body]
fn range_map_insert(
    m: &mut rangemap::RangeMap<usize, usize>,
    start: usize,
    end: usize,
    value: usize,
)
    requires
        start < end,
        forall|a: int| start <= a < end ==> !spans_of(*old(m)).dom().contains(a),
        spans_of(*old(m)).dom().contains(start - 1) ==> spans_of(*old(m))[start - 1].2 != value,
        spans_of(*old(m)).dom().contains(end as int) ==> spans_of(*old(m))[end as int].2 != value,
    ensures
        spans_of(*final(m)) == spans_of(*old(m)).union_prefer_right(
            Map::new(
                |a: int| start <= a < end,
                |a: int| (start as int, end as int, value as int),
            ),
        ),
{
    m.insert(start..end, value);
}

/// Relies on rangemap::RangeMap::get_key_value: yields the stored range
/// covering the key with its value, or nothing when no stored range covers
/// the key.
#[verifier::external_body]
fn range_map_get(m: &rangemap::RangeMap<usize, usize>, key: usize) -> (r: Option<
    (usize, usize, usize),
>)
    ensures
        match r {
            Some(t) => spans_of(*m).dom().contains(key as int) && spans_of(*m)[key as int] == (
                t.0 as int,
                t.1 as int,
                t.2 as int,
            ),
            None => !spans_of(*m).dom().contains(key as int),
        },
{
    match m.get_key_value(&key) {
        Some((range, value)) => Some((range.start, range.end, *value)),
        None => None,
    }
}

/// One device mounted on a bus: a flat memory, a character output, or a
/// whole bus of further devices, which nests address spaces.
pub enum MappedDevice {
    Ram(DRAM),
    Uart(UART),
    Bus(Box<Bus>),
}

/// An address space composed of devices at base addresses: an interval map
/// from address ranges to indices into the device list, plus the cached
/// total span.
pub struct Bus {
    pub address_space_size: usize,
    pub address_space_map: rangemap::RangeMap<usize, usize>,
    pub devices: Vec<MappedDevice>,
}

impl MappedDevice {
    /// Well-formedness of the mounted device.
    pub open spec fn inv(self) -> bool
        decreases self,
    {
        match self {
            MappedDevice::Ram(d) => d.inv(),
            MappedDevice::Uart(u) => u.inv(),
            MappedDevice::Bus(b) => b.inv(),
        }
    }

    /// The mounted device's address-space size.
    pub open spec fn size_spec(self) -> nat {
        match self {
            MappedDevice::Ram(d) => d.size_spec(),
            MappedDevice::Uart(u) => u.size_spec(),
            MappedDevice::Bus(b) => b.size_spec(),
        }
    }

    /// What a byte read of the mounted device yields.
    pub open spec fn read_bytes_spec(self, address: int, size: int) -> Result<Seq<u8>, DeviceError>
        decreases self,
    {
        match self {
            MappedDevice::Ram(d) => if 0 <= address && 0 <= size && address + size
                <= d.size_spec() {
                Ok(d@.subrange(address, address + size))
            } else {
                Err(DeviceError::InvalidAddressReadFault)
            },
            MappedDevice::Uart(u) => if size == 1 {
                Ok(seq![0u8])
            } else {
                Err(DeviceError::InvalidSizeReadFault)
            },
            MappedDevice::Bus(b) => b.read_bytes_spec(address, size),
        }
    }

    /// What an integer read of the mounted device yields.
    pub open spec fn read_int_spec(
        self,
        address: int,
        size: int,
        endianness: Endianness,
        sign_extend: bool,
    ) -> Result<u64, DeviceError>
        decreases self,
    {
        match self {
            MappedDevice::Ram(d) => if address + size > d.size_spec() || address < 0 {
                Err(DeviceError::InvalidAddressReadFault)
            } else if !(size == 1 || size == 2 || size == 4 || size == 8) {
                Err(DeviceError::InvalidSizeReadFault)
            } else {
                Ok(
                    spec_int_value(
                        d@.subrange(address, address + size),
                        endianness,
                        sign_extend,
                    ) as u64,
                )
            },
            MappedDevice::Uart(u) => if size == 1 {
                Ok(0)
            } else {
                Err(DeviceError::InvalidSizeReadFault)
            },
            MappedDevice::Bus(b) => b.read_int_spec(address, size, endianness, sign_extend),
        }
    }

    /// How a byte write changes the mounted device: `post` is the device
    /// after the write and `r` its result.
    pub open spec fn write_bytes_rel(
        self,
        post: MappedDevice,
        address: int,
        data: Seq<u8>,
        r: Result<(), DeviceError>,
    ) -> bool
        decreases self,
    {
        match self {
            MappedDevice::Ram(d) => match post {
                MappedDevice::Ram(d2) => {
                    &&& d2.size_spec() == d.size_spec()
                    &&& if address + data.len() <= d.size_spec() && 0 <= address {
                        r == Ok::<(), DeviceError>(()) && d2@ == spec_store_bytes(
                            d@,
                            address,
                            data,
                        )
                    } else {
                        r == Err::<(), DeviceError>(DeviceError::InvalidAddressWriteFault) && d2@
                            == d@
                    }
                },
                _ => false,
            },
            MappedDevice::Uart(u) => match post {
                MappedDevice::Uart(u2) => if data.len() == 1 {
                    r == Ok::<(), DeviceError>(())
                } else {
                    r == Err::<(), DeviceError>(DeviceError::InvalidSizeWriteFault)
                },
                _ => false,
            },
            MappedDevice::Bus(b) => match post {
                MappedDevice::Bus(b2) => b.write_bytes_rel(*b2, address, data, r),
                _ => false,
            },
        }
    }

    /// How an integer write changes the mounted device.
    pub open spec fn write_int_rel(
        self,
        post: MappedDevice,
        address: int,
        value: u64,
        size: int,
        endianness: Endianness,
        r: Result<(), DeviceError>,
    ) -> bool
        decreases self,
    {
        match self {
            MappedDevice::Ram(d) => match post {
                MappedDevice::Ram(d2) => {
                    &&& d2.size_spec() == d.size_spec()
                    &&& if address + size > d.size_spec() || address < 0 {
                        r == Err::<(), DeviceError>(DeviceError::InvalidAddressWriteFault) && d2@
                            == d@
                    } else if !(size == 1 || size == 2 || size == 4 || size == 8) {
                        r == Err::<(), DeviceError>(DeviceError::InvalidSizeWriteFault) && d2@
                            == d@
                    } else {
                        r == Ok::<(), DeviceError>(()) && d2@ == spec_store_bytes(
                            d@,
                            address,
                            spec_bytes_of(value as nat, size as nat, endianness),
                        )
                    }
                },
                _ => false,
            },
            MappedDevice::Uart(u) => match post {
                MappedDevice::Uart(u2) => if size == 1 {
                    r == Ok::<(), DeviceError>(())
                } else {
                    r == Err::<(), DeviceError>(DeviceError::InvalidSizeWriteFault)
                },
                _ => false,
            },
            MappedDevice::Bus(b) => match post {
                MappedDevice::Bus(b2) => b.write_int_rel(*b2, address, value, size, endianness, r),
                _ => false,
            },
        }
    }
}

/// The per-variant invariant of a mounted device.
proof fn lemma_mapped_inv(d: MappedDevice)
    requires
        d.inv(),
    ensures
        match d {
            MappedDevice::Ram(x) => x.inv(),
            MappedDevice::Uart(x) => x.inv(),
            MappedDevice::Bus(b) => b.inv(),
        },
{
}

/// A successful byte read yields exactly the requested number of bytes, at
/// every nesting depth.
proof fn lemma_read_bytes_spec_len(d: MappedDevice, a: int, size: int)
    requires
        d.inv(),
    ensures
        d.read_bytes_spec(a, size) is Ok ==> d.read_bytes_spec(a, size).unwrap().len() == size,
    decreases d,
{
    match d {
        MappedDevice::Ram(x) => {
            lemma_dram_view_len(x);
        },
        MappedDevice::Bus(b) => {
            assert(d.read_bytes_spec(a, size) == b.read_bytes_spec(a, size));
            match b.resolve_spec(a) {
                Some((s, e, i)) => {
                    if 0 <= i < b.devices@.len() {
                        assert(b.read_bytes_spec(a, size) == b.devices@[i].read_bytes_spec(
                            a - s,
                            size,
                        ));
                        assert(b.devices@[i].inv());
                        lemma_read_bytes_spec_len(b.devices@[i], a - s, size);
                    }
                },
                None => {},
            }
        },
        _ => {},
    }
}

impl Bus {
    /// The stored interval map, as a mathematical map from each covered
    /// address to its range and device index.
    pub open spec fn spans(self) -> Map<int, (int, int, int)> {
        spans_of(self.address_space_map)
    }

    /// The mounted devices, in registration order.
    pub open spec fn devices_spec(self) -> Seq<MappedDevice> {
        self.devices@
    }

    /// The cached total span of the address space.
    pub open spec fn size_spec(self) -> nat {
        self.address_space_size as nat
    }

    /// The range and device index owning an address, if any.
    pub open spec fn resolve_spec(self, address: int) -> Option<(int, int, int)> {
        if self.spans().dom().contains(address) {
            Some(self.spans()[address])
        } else {
            None
        }
    }

    /// Well-formedness: every device is well-formed, and every covered
    /// address maps to the range its device was registered at, within the
    /// device list and the cached total span.
    pub open spec fn inv(self) -> bool
        decreases self,
    {
        &&& forall|i: int|
            0 <= i < self.devices@.len() ==> (#[trigger] self.devices@[i]).inv()
        &&& forall|a: int|
            #[trigger] spans_of(self.address_space_map).dom().contains(a) ==> {
                let (s, e, i) = spans_of(self.address_space_map)[a];
                &&& 0 <= i < self.devices@.len()
                &&& s <= a < e
                &&& e == s + self.devices@[i].size_spec()
                &&& e <= self.address_space_size
            }
    }

    /// What a byte read through the bus yields: resolution, then the owning
    /// device's read at the address translated by the range's base.
    pub open spec fn read_bytes_spec(self, address: int, size: int) -> Result<Seq<u8>, DeviceError>
        decreases self,
    {
        match self.resolve_spec(address) {
            Some((s, e, i)) => if 0 <= i < self.devices@.len() {
                self.devices@[i].read_bytes_spec(address - s, size)
            } else {
                Err(DeviceError::InvalidAddressReadFault)
            },
            None => Err(DeviceError::InvalidAddressReadFault),
        }
    }

    /// What an integer read through the bus yields.
    pub open spec fn read_int_spec(
        self,
        address: int,
        size: int,
        endianness: Endianness,
        sign_extend: bool,
    ) -> Result<u64, DeviceError>
        decreases self,
    {
        match self.resolve_spec(address) {
            Some((s, e, i)) => if 0 <= i < self.devices@.len() {
                self.devices@[i].read_int_spec(address - s, size, endianness, sign_extend)
            } else {
                Err(DeviceError::InvalidAddressReadFault)
            },
            None => Err(DeviceError::InvalidAddressReadFault),
        }
    }

    /// How a byte write changes the bus: only the owning device changes, by
    /// its own write relation at the translated address.
    pub open spec fn write_bytes_rel(
        self,
        post: Bus,
        address: int,
        data: Seq<u8>,
        r: Result<(), DeviceError>,
    ) -> bool
        decreases self,
    {
        &&& post.spans() == self.spans()
        &&& post.size_spec() == self.size_spec()
        &&& post.devices_spec().len() == self.devices_spec().len()
        &&& match self.resolve_spec(address) {
            Some((s, e, i)) => {
                &&& 0 <= i < self.devices@.len()
                &&& self.devices@[i].write_bytes_rel(post.devices_spec()[i], address - s, data, r)
                &&& forall|j: int|
                    0 <= j < self.devices_spec().len() && j != i ==> post.devices_spec()[j]
                        == self.devices_spec()[j]
            },
            None => r == Err::<(), DeviceError>(DeviceError::InvalidAddressWriteFault)
                && post.devices_spec() == self.devices_spec(),
        }
    }

    /// How an integer write changes the bus.
    pub open spec fn write_int_rel(
        self,
        post: Bus,
        address: int,
        value: u64,
        size: int,
        endianness: Endianness,
        r: Result<(), DeviceError>,
    ) -> bool
        decreases self,
    {
        &&& post.spans() == self.spans()
        &&& post.size_spec() == self.size_spec()
        &&& post.devices_spec().len() == self.devices_spec().len()
        &&& match self.resolve_spec(address) {
            Some((s, e, i)) => {
                &&& 0 <= i < self.devices@.len()
                &&& self.devices@[i].write_int_rel(
                    post.devices_spec()[i],
                    address - s,
                    value,
                    size,
                    endianness,
                    r,
                )
                &&& forall|j: int|
                    0 <= j < self.devices_spec().len() && j != i ==> post.devices_spec()[j]
                        == self.devices_spec()[j]
            },
            None => r == Err::<(), DeviceError>(DeviceError::InvalidAddressWriteFault)
                && post.devices_spec() == self.devices_spec(),
        }
    }
}


impl MappedDevice {
    /// The mounted device's address-space size.
    pub fn get_address_space_size(&self) -> (r: usize)
        requires
            self.inv(),
        ensures
            r == self.size_spec(),
    {
        match self {
            MappedDevice::Ram(d) => d.get_address_space_size(),
            MappedDevice::Uart(u) => u.get_address_space_size(),
            MappedDevice::Bus(b) => b.get_address_space_size(),
        }
    }

    /// Read bytes from the mounted device, as `read_bytes_spec` states.
    pub fn read_bytes(&self, address: usize, size: usize) -> (r: Result<Vec<u8>, DeviceError>)
        requires
            self.inv(),
        ensures
            match self.read_bytes_spec(address as int, size as int) {
                Ok(bytes) => r is Ok && r.unwrap()@ == bytes,
                Err(e) => r == Err::<Vec<u8>, DeviceError>(e),
            },
    {
        proof {
            lemma_mapped_inv(*self);
        }
        match self {
            MappedDevice::Ram(d) => d.read_bytes(address, size),
            MappedDevice::Uart(u) => u.read_bytes(address, size),
            MappedDevice::Bus(b) => b.read_bytes(address, size),
        }
    }

    /// Read an integer from the mounted device, as `read_int_spec` states.
    pub fn read_int(
        &self,
        address: usize,
        size: usize,
        endianness: Endianness,
        sign_extend: bool,
    ) -> (r: Result<u64, DeviceError>)
        requires
            self.inv(),
        ensures
            r == self.read_int_spec(address as int, size as int, endianness, sign_extend),
    {
        proof {
            lemma_mapped_inv(*self);
        }
        match self {
            MappedDevice::Ram(d) => d.read_int(address, size, endianness, sign_extend),
            MappedDevice::Uart(u) => u.read_int(address, size, endianness, sign_extend),
            MappedDevice::Bus(b) => b.read_int(address, size, endianness, sign_extend),
        }
    }

    /// Write bytes to the mounted device, as `write_bytes_rel` states.
    pub fn write_bytes(&mut self, address: usize, binary: &[u8]) -> (r: Result<(), DeviceError>)
        requires
            old(self).inv(),
        ensures
            final(self).inv(),
            old(self).write_bytes_rel(*final(self), address as int, binary@, r),
    {
        proof {
            lemma_mapped_inv(*self);
        }
        match self {
            MappedDevice::Ram(d) => d.write_bytes(address, binary),
            MappedDevice::Uart(u) => u.write_bytes(address, binary),
            MappedDevice::Bus(b) => b.write_bytes(address, binary),
        }
    }

    /// Write an integer to the mounted device, as `write_int_rel` states.
    pub fn write_int(
        &mut self,
        address: usize,
        value: u64,
        size: usize,
        endianness: Endianness,
    ) -> (r: Result<(), DeviceError>)
        requires
            old(self).inv(),
        ensures
            final(self).inv(),
            old(self).write_int_rel(*final(self), address as int, value, size as int, endianness, r),
    {
        proof {
            lemma_mapped_inv(*self);
        }
        match self {
            MappedDevice::Ram(d) => d.write_int(address, value, size, endianness),
            MappedDevice::Uart(u) => u.write_int(address, value, size, endianness),
            MappedDevice::Bus(b) => b.write_int(address, value, size, endianness),
        }
    }
}

/// The furthest end address of the first `n` registered devices.
pub open spec fn spec_span_end(devices: Seq<(usize, MappedDevice)>, n: int) -> int
    decreases n,
{
    if n <= 0 {
        0
    } else {
        let prev = spec_span_end(devices, n - 1);
        let end = devices[n - 1].0 + devices[n - 1].1.size_spec();
        if prev < end {
            end
        } else {
            prev
        }
    }
}

/// Whether an address falls in the range of one of the first `n` devices.
pub open spec fn spec_covered(devices: Seq<(usize, MappedDevice)>, n: int, a: int) -> bool {
    exists|i: int|
        0 <= i < n && (#[trigger] devices[i]).0 <= a < devices[i].0 + devices[i].1.size_spec()
}

impl Bus {
    /// Build the address space from (base address, device) pairs: devices
    /// must be non-empty, lie within the address range of the machine, and
    /// not overlap one another. Resolution afterwards finds exactly the
    /// device whose range covers an address.
    pub fn new(devices: Vec<(usize, MappedDevice)>) -> (r: Bus)
        requires
            forall|i: int|
                0 <= i < devices@.len() ==> (#[trigger] devices@[i]).1.inv(),
            forall|i: int|
                0 <= i < devices@.len() ==> (#[trigger] devices@[i]).1.size_spec() > 0,
            forall|i: int|
                0 <= i < devices@.len() ==> (#[trigger] devices@[i]).0 + devices@[i].1.size_spec()
                    <= usize::MAX,
            forall|i: int, j: int|
                0 <= i < devices@.len() && 0 <= j < devices@.len() && i != j ==> (
                #[trigger] devices@[i]).0 + devices@[i].1.size_spec() <= (
                #[trigger] devices@[j]).0 || devices@[j].0 + devices@[j].1.size_spec()
                    <= devices@[i].0,
        ensures
            r.inv(),
            r.devices_spec().len() == devices@.len(),
            forall|i: int|
                0 <= i < devices@.len() ==> r.devices_spec()[i] == (#[trigger] devices@[i]).1,
            r.size_spec() == spec_span_end(devices@, devices@.len() as int),
            forall|i: int, a: int|
                #![trigger devices@[i], r.resolve_spec(a)]
                0 <= i < devices@.len() && devices@[i].0 <= a < devices@[i].0
                    + devices@[i].1.size_spec() ==> r.resolve_spec(a) == Some(
                    (
                        devices@[i].0 as int,
                        devices@[i].0 + devices@[i].1.size_spec(),
                        i,
                    ),
                ),
            forall|a: int|
                !spec_covered(devices@, devices@.len() as int, a) ==> r.resolve_spec(a) is None,
    {
        let mut remaining = devices;
        let ghost all = remaining@;
        let mut bus = Bus {
            address_space_size: 0,
            address_space_map: range_map_new(),
            devices: Vec::new(),
        };
        let n = remaining.len();
        let mut k: usize = 0;
        while k < n
            invariant
                n == all.len(),
                remaining@ == all.subrange(k as int, n as int),
                k <= n,
                bus.devices@.len() == k,
                forall|i: int| 0 <= i < k ==> bus.devices@[i] == (#[trigger] all[i]).1,
                forall|i: int| 0 <= i < all.len() ==> (#[trigger] all[i]).1.inv(),
                forall|i: int| 0 <= i < all.len() ==> (#[trigger] all[i]).1.size_spec() > 0,
                forall|i: int|
                    0 <= i < all.len() ==> (#[trigger] all[i]).0 + all[i].1.size_spec()
                        <= usize::MAX,
                forall|i: int, j: int|
                    0 <= i < all.len() && 0 <= j < all.len() && i != j ==> (#[trigger] all[i]).0
                        + all[i].1.size_spec() <= (#[trigger] all[j]).0 || all[j].0
                        + all[j].1.size_spec() <= all[i].0,
                bus.address_space_size as int == spec_span_end(all, k as int),
                forall|i: int, a: int|
                    #![trigger all[i], spans_of(bus.address_space_map).dom().contains(a)]
                    0 <= i < k && all[i].0 <= a < all[i].0 + all[i].1.size_spec()
                        ==> spans_of(bus.address_space_map).dom().contains(a) && spans_of(
                        bus.address_space_map,
                    )[a] == (all[i].0 as int, all[i].0 + all[i].1.size_spec(), i),
                forall|a: int|
                    #[trigger] spans_of(bus.address_space_map).dom().contains(a) ==> spec_covered(
                        all,
                        k as int,
                        a,
                    ),
                forall|a: int|
                    #[trigger] spans_of(bus.address_space_map).dom().contains(a) ==> {
                        let (s, e, i) = spans_of(bus.address_space_map)[a];
                        &&& 0 <= i < k
                        &&& s == all[i].0
                        &&& e == all[i].0 + all[i].1.size_spec()
                        &&& s <= a < e
                        &&& e <= bus.address_space_size
                    },
            decreases n - k,
        {
            let (base_address, device) = remaining.remove(0);
            proof {
                assert(all[k as int].0 == base_address);
                assert(all[k as int].1 == device);
            }
            let address_space_size = match &device {
                MappedDevice::Ram(d) => d.get_address_space_size(),
                MappedDevice::Uart(u) => u.get_address_space_size(),
                MappedDevice::Bus(b) => b.get_address_space_size(),
            };
            let end_address = base_address + address_space_size;
            if bus.address_space_size < end_address {
                bus.address_space_size = end_address;
            }
            let idx = bus.devices.len();
            range_map_insert(&mut bus.address_space_map, base_address, end_address, idx);
            bus.devices.push(device);
            k = k + 1;
            proof {
                assert forall|a: int|
                    #[trigger] spans_of(bus.address_space_map).dom().contains(a) implies
                    spec_covered(all, k as int, a) by {
                    if base_address <= a < end_address {
                        assert(0 <= k - 1 < k && all[k - 1].0 <= a < all[k - 1].0 + all[k
                            - 1].1.size_spec());
                    }
                }
            }
        }
        proof {
            assert forall|i: int| 0 <= i < bus.devices@.len() implies (
            #[trigger] bus.devices@[i]).inv() by {
                assert(bus.devices@[i] == all[i].1);
                assert(all[i].1.inv());
            }
        }
        bus
    }

    /// The cached total span of the address space.
    pub fn get_address_space_size(&self) -> (r: usize)
        ensures
            r == self.size_spec(),
    {
        self.address_space_size
    }

    /// The range and device owning an address, or nothing when no device's
    /// range covers it.
    pub fn get_device(&self, address: usize) -> (r: Option<(Range<usize>, &MappedDevice)>)
        requires
            self.inv(),
        ensures
            match self.resolve_spec(address as int) {
                Some((s, e, i)) => r is Some && r.unwrap().0.start == s && r.unwrap().0.end == e
                    && *r.unwrap().1 == self.devices_spec()[i],
                None => r is None,
            },
    {
        match range_map_get(&self.address_space_map, address) {
            Some((start, end, idx)) => Some((start..end, &self.devices[idx])),
            None => None,
        }
    }

    /// The range and device owning an address, borrowed for mutation: the
    /// bus afterwards holds whatever the caller leaves in the returned
    /// device, every other device untouched.
    pub fn get_device_mut(&mut self, address: usize) -> (r: Option<(Range<usize>, &mut MappedDevice)>)
        requires
            old(self).inv(),
        ensures
            match old(self).resolve_spec(address as int) {
                Some((s, e, i)) => r is Some && {
                    let (rng, dev) = r.unwrap();
                    &&& rng.start == s
                    &&& rng.end == e
                    &&& *dev == old(self).devices@[i]
                    &&& final(self).devices@ == old(self).devices@.update(i, *final(dev))
                    &&& final(self).address_space_map == old(self).address_space_map
                    &&& final(self).address_space_size == old(self).address_space_size
                },
                None => r is None && *final(self) == *old(self),
            },
    {
        match range_map_get(&self.address_space_map, address) {
            Some((start, end, idx)) => {
                proof {
                    assert(spans_of(self.address_space_map).dom().contains(address as int));
                }
                Some((start..end, &mut self.devices[idx]))
            },
            None => None,
        }
    }

    /// Read `size` bytes at `address` through the owning device; an address
    /// no device covers is an invalid-address read fault.
    pub fn read_bytes(&self, address: usize, size: usize) -> (r: Result<Vec<u8>, DeviceError>)
        requires
            self.inv(),
        ensures
            match self.read_bytes_spec(address as int, size as int) {
                Ok(bytes) => r is Ok && r.unwrap()@ == bytes,
                Err(e) => r == Err::<Vec<u8>, DeviceError>(e),
            },
        decreases *self,
    {
        match range_map_get(&self.address_space_map, address) {
            Some((start, end, idx)) => {
                proof {
                    assert(spans_of(self.address_space_map).dom().contains(address as int));
                    assert(self.devices@[idx as int].inv());
                    lemma_mapped_inv(self.devices@[idx as int]);
                }
                let local = address - start;
                match &self.devices[idx] {
                    MappedDevice::Ram(d) => d.read_bytes(local, size),
                    MappedDevice::Uart(u) => u.read_bytes(local, size),
                    MappedDevice::Bus(b) => b.read_bytes(local, size),
                }
            },
            None => Err(DeviceError::InvalidAddressReadFault),
        }
    }

    /// Read an integer at `address` through the owning device.
    pub fn read_int(
        &self,
        address: usize,
        size: usize,
        endianness: Endianness,
        sign_extend: bool,
    ) -> (r: Result<u64, DeviceError>)
        requires
            self.inv(),
        ensures
            r == self.read_int_spec(address as int, size as int, endianness, sign_extend),
        decreases *self,
    {
        match range_map_get(&self.address_space_map, address) {
            Some((start, end, idx)) => {
                proof {
                    assert(spans_of(self.address_space_map).dom().contains(address as int));
                    assert(self.devices@[idx as int].inv());
                    lemma_mapped_inv(self.devices@[idx as int]);
                }
                let local = address - start;
                match &self.devices[idx] {
                    MappedDevice::Ram(d) => d.read_int(local, size, endianness, sign_extend),
                    MappedDevice::Uart(u) => u.read_int(local, size, endianness, sign_extend),
                    MappedDevice::Bus(b) => b.read_int(local, size, endianness, sign_extend),
                }
            },
            None => Err(DeviceError::InvalidAddressReadFault),
        }
    }

    /// Write bytes at `address` through the owning device; an address no
    /// device covers is an invalid-address write fault.
    pub fn write_bytes(&mut self, address: usize, binary: &[u8]) -> (r: Result<(), DeviceError>)
        requires
            old(self).inv(),
        ensures
            final(self).inv(),
            old(self).write_bytes_rel(*final(self), address as int, binary@, r),
        decreases *old(self),
    {
        match range_map_get(&self.address_space_map, address) {
            Some((start, end, idx)) => {
                proof {
                    assert(spans_of(self.address_space_map).dom().contains(address as int));
                    assert(self.devices@[idx as int].inv());
                    lemma_mapped_inv(self.devices@[idx as int]);
                }
                let local = address - start;
                match &mut self.devices[idx] {
                    MappedDevice::Ram(d) => d.write_bytes(local, binary),
                    MappedDevice::Uart(u) => u.write_bytes(local, binary),
                    MappedDevice::Bus(b) => b.write_bytes(local, binary),
                }
            },
            None => Err(DeviceError::InvalidAddressWriteFault),
        }
    }

    /// Write an integer at `address` through the owning device.
    pub fn write_int(
        &mut self,
        address: usize,
        value: u64,
        size: usize,
        endianness: Endianness,
    ) -> (r: Result<(), DeviceError>)
        requires
            old(self).inv(),
        ensures
            final(self).inv(),
            old(self).write_int_rel(*final(self), address as int, value, size as int, endianness, r),
        decreases *old(self),
    {
        match range_map_get(&self.address_space_map, address) {
            Some((start, end, idx)) => {
                proof {
                    assert(spans_of(self.address_space_map).dom().contains(address as int));
                    assert(self.devices@[idx as int].inv());
                    lemma_mapped_inv(self.devices@[idx as int]);
                }
                let local = address - start;
                match &mut self.devices[idx] {
                    MappedDevice::Ram(d) => d.write_int(local, value, size, endianness),
                    MappedDevice::Uart(u) => u.write_int(local, value, size, endianness),
                    MappedDevice::Bus(b) => b.write_int(local, value, size, endianness),
                }
            },
            None => Err(DeviceError::InvalidAddressWriteFault),
        }
    }
}

impl Device for Bus {
    open spec fn inv(&self) -> bool {
        Bus::inv(*self)
    }

    open spec fn size_spec(&self) -> nat {
        Bus::size_spec(*self)
    }

    fn get_address_space_size(&self) -> (r: usize) {
        Bus::get_address_space_size(self)
    }

    fn read_bytes(&self, address: usize, size: usize) -> (r: Result<Vec<u8>, DeviceError>) {
        proof {
            let ghost d = MappedDevice::Bus(Box::new(*self));
            assert(d.inv());
            lemma_read_bytes_spec_len(d, address as int, size as int);
        }
        Bus::read_bytes(self, address, size)
    }

    fn write_bytes(&mut self, address: usize, binary: &[u8]) -> (r: Result<(), DeviceError>) {
        Bus::write_bytes(self, address, binary)
    }

    fn read_int(
        &self,
        address: usize,
        size: usize,
        endianness: Endianness,
        sign_extend: bool,
    ) -> (r: Result<u64, DeviceError>) {
        Bus::read_int(self, address, size, endianness, sign_extend)
    }

    fn write_int(
        &mut self,
        address: usize,
        value: u64,
        size: usize,
        endianness: Endianness,
    ) -> (r: Result<(), DeviceError>) {
        Bus::write_int(self, address, value, size, endianness)
    }
}


/// Load/store round trip through the bus: writing bytes at an address owned
/// by a flat memory device and then reading the same number of bytes at
/// that address yields the bytes written.
pub proof fn lemma_bus_round_trip(pre: Bus, post: Bus, address: usize, data: Seq<u8>)
    requires
        pre.inv(),
        pre.write_bytes_rel(post, address as int, data, Ok(())),
        match pre.resolve_spec(address as int) {
            Some((s, e, i)) => pre.devices@[i] is Ram,
            None => false,
        },
    ensures
        post.read_bytes_spec(address as int, data.len() as int) == Ok::<Seq<u8>, DeviceError>(
            data,
        ),
{
    let a = address as int;
    let (s, e, i) = pre.resolve_spec(a).unwrap();
    assert(pre.spans().dom().contains(a));
    let d1 = pre.devices@[i]->Ram_0;
    let d2 = post.devices@[i]->Ram_0;
    lemma_mapped_inv(pre.devices@[i]);
    lemma_dram_view_len(d1);
    assert(post.devices@[i] is Ram);
    assert(d2.size_spec() == d1.size_spec());
    assert(a - s + data.len() <= d1.size_spec() && 0 <= a - s);
    assert(d2@ == spec_store_bytes(d1@, a - s, data));
    assert(post.resolve_spec(a) == pre.resolve_spec(a));
    assert(post.devices@[i].read_bytes_spec(a - s, data.len() as int) == Ok::<
        Seq<u8>,
        DeviceError,
    >(d2@.subrange(a - s, a - s + data.len())));
    assert(post.read_bytes_spec(a, data.len() as int) == Ok::<Seq<u8>, DeviceError>(
        d2@.subrange(a - s, a - s + data.len()),
    ));
    assert(d2@.subrange(a - s, a - s + data.len()) =~= data);
}


/// Integer round trip through the bus: writing an integer at an address
/// owned by a flat memory device and then reading the same width in the
/// same byte order yields the value reduced to that width, for either byte
/// order.
pub proof fn lemma_bus_int_round_trip(
    pre: Bus,
    post: Bus,
    address: usize,
    value: u64,
    size: usize,
    endianness: Endianness,
)
    requires
        pre.inv(),
        valid_int_size(size),
        pre.write_int_rel(post, address as int, value, size as int, endianness, Ok(())),
        match pre.resolve_spec(address as int) {
            Some((s, e, i)) => pre.devices@[i] is Ram,
            None => false,
        },
    ensures
        post.read_int_spec(address as int, size as int, endianness, false) == Ok::<
            u64,
            DeviceError,
        >(((value as nat) % pow256(size as nat)) as u64),
{
    let a = address as int;
    let (s, e, i) = pre.resolve_spec(a).unwrap();
    assert(pre.spans().dom().contains(a));
    let d1 = pre.devices@[i]->Ram_0;
    let d2 = post.devices@[i]->Ram_0;
    lemma_mapped_inv(pre.devices@[i]);
    lemma_dram_view_len(d1);
    assert(post.devices@[i] is Ram);
    assert(d2.size_spec() == d1.size_spec());
    assert(0 <= a - s && a - s + size <= d1.size_spec());
    let data = spec_bytes_of(value as nat, size as nat, endianness);
    assert(d2@ == spec_store_bytes(d1@, a - s, data));
    assert(post.resolve_spec(a) == pre.resolve_spec(a));
    lemma_int_round_trip(d1@, a - s, value, size as int, endianness);
    let window = d2@.subrange(a - s, a - s + size);
    assert(spec_int_raw(window, endianness) == (value as nat) % pow256(size as nat));
    assert(spec_int_value(window, endianness, false) == spec_int_raw(window, endianness));
    assert(pow256(size as nat) <= 0x1_0000_0000_0000_0000) by {
        reveal_with_fuel(pow256, 9);
    }
    assert(post.devices@[i].read_int_spec(a - s, size as int, endianness, false) == Ok::<
        u64,
        DeviceError,
    >((spec_int_value(window, endianness, false)) as u64));
    assert(post.read_int_spec(a, size as int, endianness, false) == Ok::<u64, DeviceError>(
        ((value as nat) % pow256(size as nat)) as u64,
    ));
}

} // verus!
