//! What the kernel logic hands to the platform layer, and what it is handed.
//!
//! Port and register writes are recorded in order; a platform layer performs
//! them on the real bus. Memory that a device exposes is held as a sparse
//! byte image.

use std::collections::HashMap;
use vstd::prelude::*;

verus! {

/// Width of one access to an I/O port.
#[derive(Clone, Copy, Debug, PartialEq, Eq, Structural)]
pub enum PortWidth {
    Byte,
    Word,
    Dword,
}

/// One write to an I/O port.
#[derive(Clone, Copy, Debug, PartialEq, Eq, Structural)]
pub struct PortWrite {
    pub port: u16,
    pub width: PortWidth,
    pub value: u32,
}

/// One 32-bit write to a memory-mapped register, by its virtual address.
#[derive(Clone, Copy, Debug, PartialEq, Eq, Structural)]
pub struct RegisterWrite {
    pub address: u64,
    pub value: u32,
}

/// One 16-bit write to memory, by its virtual address.
#[derive(Clone, Copy, Debug, PartialEq, Eq, Structural)]
pub struct MemoryWrite {
    pub address: u64,
    pub value: u16,
}

/// A byte write to port `port`.
pub open spec fn byte_write(port: u16, value: u8) -> PortWrite {
    PortWrite { port, width: PortWidth::Byte, value: value as u32 }
}

/// A 16-bit write to port `port`.
pub open spec fn word_write(port: u16, value: u16) -> PortWrite {
    PortWrite { port, width: PortWidth::Word, value: value as u32 }
}

/// A 32-bit write to port `port`.
pub open spec fn dword_write(port: u16, value: u32) -> PortWrite {
    PortWrite { port, width: PortWidth::Dword, value }
}

impl PortWrite {
    pub fn byte(port: u16, value: u8) -> (write: Self)
        ensures
            write == byte_write(port, value),
    {
        PortWrite { port, width: PortWidth::Byte, value: value as u32 }
    }

    pub fn word(port: u16, value: u16) -> (write: Self)
        ensures
            write == word_write(port, value),
    {
        PortWrite { port, width: PortWidth::Word, value: value as u32 }
    }

    pub fn dword(port: u16, value: u32) -> (write: Self)
        ensures
            write == dword_write(port, value),
    {
        PortWrite { port, width: PortWidth::Dword, value }
    }
}

/// The byte that a location of a sparse image holds: what was stored there,
/// and `0xFF` where nothing was.
pub open spec fn image_byte(bytes: Map<u64, u8>, address: u64) -> u8 {
    if bytes.contains_key(address) {
        bytes[address]
    } else {
        0xFF
    }
}

/// The little-endian 16-bit value at `address`. The second byte is the one
/// at the next address, which wraps around at the end of the address space.
pub open spec fn image_word(bytes: Map<u64, u8>, address: u64) -> u16 {
    (image_byte(bytes, address) as u16) | ((image_byte(bytes, next_address(address, 1)) as u16)
        << 8)
}

/// The little-endian 32-bit value at `address`.
pub open spec fn image_dword(bytes: Map<u64, u8>, address: u64) -> u32 {
    (image_word(bytes, address) as u32) | ((image_word(bytes, next_address(address, 2)) as u32)
        << 16)
}

/// `address + distance`, wrapping around at the end of the address space.
pub open spec fn next_address(address: u64, distance: u64) -> u64 {
    ((address + distance) % 0x1_0000_0000_0000_0000) as u64
}

/// The image after a little-endian 16-bit store.
pub open spec fn image_with_word(bytes: Map<u64, u8>, address: u64, value: u16) -> Map<u64, u8> {
    bytes.insert(address, (value & 0xFF) as u8).insert(
        next_address(address, 1),
        (value >> 8) as u8,
    )
}

/// Memory behind a device window, as far as it has been filled in. Bytes that
/// were never stored read as `0xFF`, which is what an absent device answers.
pub struct ByteImage {
    bytes: HashMap<u64, u8>,
}

impl View for ByteImage {
    type V = Map<u64, u8>;

    closed spec fn view(&self) -> Map<u64, u8> {
        self.bytes@
    }
}

impl ByteImage {
    /// An image in which nothing has been stored.
    pub fn new() -> (image: Self)
        ensures
            image@ == Map::<u64, u8>::empty(),
    {
        ByteImage { bytes: HashMap::new() }
    }

    pub fn read_byte(&self, address: u64) -> (value: u8)
        ensures
            value == image_byte(self@, address),
    {
        match self.bytes.get(&address) {
            Some(value) => *value,
            None => 0xFF,
        }
    }

    pub fn write_byte(&mut self, address: u64, value: u8)
        ensures
            final(self)@ == old(self)@.insert(address, value),
    {
        self.bytes.insert(address, value);
    }

    pub fn read_word(&self, address: u64) -> (value: u16)
        ensures
            value == image_word(self@, address),
    {
        let lo: u8 = self.read_byte(address);
        let hi: u8 = self.read_byte(address.wrapping_add(1));
        (lo as u16) | ((hi as u16) << 8)
    }

    pub fn read_dword(&self, address: u64) -> (value: u32)
        ensures
            value == image_dword(self@, address),
    {
        let lo: u16 = self.read_word(address);
        let hi: u16 = self.read_word(address.wrapping_add(2));
        (lo as u32) | ((hi as u32) << 16)
    }

    pub fn write_word(&mut self, address: u64, value: u16)
        ensures
            final(self)@ == image_with_word(old(self)@, address, value),
    {
        self.write_byte(address, (value & 0xFF) as u8);
        self.write_byte(address.wrapping_add(1), (value >> 8) as u8);
    }
}

/// A 16-bit value that was stored is the value read back from the same place.
pub proof fn stored_word_is_read_back(bytes: Map<u64, u8>, address: u64, value: u16)
    ensures
        image_word(image_with_word(bytes, address, value), address) == value,
{
    let lo = (value & 0xFF) as u8;
    let hi = (value >> 8) as u8;
    assert((lo as u16) | ((hi as u16) << 8) == value) by (bit_vector)
        requires
            lo == (value & 0xFF) as u8,
            hi == (value >> 8) as u8,
    ;
    if next_address(address, 1) == address {
        assert(false);
    }
}

} // verus!
