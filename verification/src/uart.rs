use vstd::prelude::*;

use crate::device::{Device, DeviceError};
use crate::endianness::Endianness;
use std::io::Write;

verus! {

/// Offset of the transmitter holding register within the device.
pub const UART_THR: u8 = 0;

/// A character-output device of eight byte registers. A byte written to the
/// transmitter holding register goes to standard output; every register
/// reads as zero.
pub struct UART {}

/// Relies on std::io::Stdout and the write! macro: sends one byte to
/// standard output; the library's state is untouched and the write error,
/// as in the original device, is not reported.
#[verifier::external_body]
fn emit_byte(byte: u8) {
    let _ = write!(std::io::stdout(), "{}", byte as char);
}

impl UART {
    /// Well-formedness; the device carries no state.
    pub open spec fn inv(self) -> bool {
        true
    }

    /// The device's address-space size.
    pub open spec fn size_spec(self) -> nat {
        8
    }

    /// A fresh character-output device.
    pub fn new() -> (r: UART)
        ensures
            r.inv(),
    {
        UART {  }
    }

    /// The fixed register-window size.
    pub fn get_address_space_size(&self) -> (r: usize)
        ensures
            r == self.size_spec(),
    {
        8
    }

    /// Reads of one byte yield zero; any other width is an invalid-size
    /// fault.
    pub fn read_bytes(&self, address: usize, size: usize) -> (r: Result<Vec<u8>, DeviceError>)
        ensures
            size == 1 ==> r is Ok && r.unwrap()@ == seq![0u8],
            size != 1 ==> r == Err::<Vec<u8>, DeviceError>(DeviceError::InvalidSizeReadFault),
    {
        if size == 1 {
            let mut out: Vec<u8> = Vec::new();
            out.push(0);
            proof {
                assert(out@ =~= seq![0u8]);
            }
            Ok(out)
        } else {
            Err(DeviceError::InvalidSizeReadFault)
        }
    }

    /// A single byte is accepted, and sent to standard output when addressed
    /// at the transmitter holding register; any other width is an
    /// invalid-size fault.
    pub fn write_bytes(&mut self, address: usize, binary: &[u8]) -> (r: Result<(), DeviceError>)
        ensures
            *final(self) == *old(self),
            binary@.len() == 1 ==> r == Ok::<(), DeviceError>(()),
            binary@.len() != 1 ==> r == Err::<(), DeviceError>(DeviceError::InvalidSizeWriteFault),
    {
        if binary.len() == 1 {
            if (address as u8) == UART_THR {
                emit_byte(binary[0]);
            }
            Ok(())
        } else {
            Err(DeviceError::InvalidSizeWriteFault)
        }
    }

    /// An integer read of one byte yields zero; any other width is an
    /// invalid-size fault.
    pub fn read_int(
        &self,
        address: usize,
        size: usize,
        endianness: Endianness,
        sign_extend: bool,
    ) -> (r: Result<u64, DeviceError>)
        ensures
            size == 1 ==> r == Ok::<u64, DeviceError>(0),
            size != 1 ==> r == Err::<u64, DeviceError>(DeviceError::InvalidSizeReadFault),
    {
        match self.read_bytes(address, size) {
            Ok(bytes) => Ok(bytes[0] as u64),
            Err(e) => Err(e),
        }
    }

    /// An integer write of one byte behaves as `write_bytes` of that byte;
    /// any other width is an invalid-size fault.
    pub fn write_int(
        &mut self,
        address: usize,
        value: u64,
        size: usize,
        endianness: Endianness,
    ) -> (r: Result<(), DeviceError>)
        ensures
            *final(self) == *old(self),
            size == 1 ==> r == Ok::<(), DeviceError>(()),
            size != 1 ==> r == Err::<(), DeviceError>(DeviceError::InvalidSizeWriteFault),
    {
        if size == 1 {
            let byte: [u8; 1] = [value as u8];
            self.write_bytes(address, byte.as_slice())
        } else {
            Err(DeviceError::InvalidSizeWriteFault)
        }
    }
}

impl Device for UART {
    open spec fn inv(&self) -> bool {
        UART::inv(*self)
    }

    open spec fn size_spec(&self) -> nat {
        UART::size_spec(*self)
    }

    fn get_address_space_size(&self) -> (r: usize) {
        UART::get_address_space_size(self)
    }

    fn read_bytes(&self, address: usize, size: usize) -> (r: Result<Vec<u8>, DeviceError>) {
        UART::read_bytes(self, address, size)
    }

    fn write_bytes(&mut self, address: usize, binary: &[u8]) -> (r: Result<(), DeviceError>) {
        UART::write_bytes(self, address, binary)
    }

    fn read_int(
        &self,
        address: usize,
        size: usize,
        endianness: Endianness,
        sign_extend: bool,
    ) -> (r: Result<u64, DeviceError>) {
        UART::read_int(self, address, size, endianness, sign_extend)
    }

    fn write_int(
        &mut self,
        address: usize,
        value: u64,
        size: usize,
        endianness: Endianness,
    ) -> (r: Result<(), DeviceError>) {
        UART::write_int(self, address, value, size, endianness)
    }
}

} // verus!
