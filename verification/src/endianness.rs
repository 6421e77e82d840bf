use vstd::prelude::*;

verus! {

/// Byte order used when packing bytes into an integer and back.
#[derive(Debug, PartialEq, Eq, Structural, Copy, Clone)]
pub enum Endianness {
    LittleEndian,
    BigEndian,
}

} // verus!
