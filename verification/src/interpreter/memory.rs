//! Byte-addressed memory with little-endian words.

use vstd::prelude::*;
use crate::word::{high_byte, le_word, low_byte, word_from_le};

verus! {

/// A run of bytes addressed from zero.
#[derive(Debug, PartialEq, Eq)]
pub struct Memory {
    pub data: Vec<u8>,
}

impl View for Memory {
    type V = Seq<u8>;

    /// The bytes of the memory.
    open spec fn view(&self) -> Seq<u8> {
        self.data@
    }
}

/// The word stored little-endian at `address`.
pub open spec fn word_at(bytes: Seq<u8>, address: int) -> u16 {
    le_word(bytes[address], bytes[address + 1])
}

/// The bytes with the word `value` stored little-endian at `address`.
pub open spec fn with_word(bytes: Seq<u8>, address: int, value: u16) -> Seq<u8> {
    bytes.update(address, (value % 0x100) as u8).update(address + 1, (value / 0x100) as u8)
}

/// The bytes with `part` stored from `address` on.
pub open spec fn with_bytes(bytes: Seq<u8>, address: int, part: Seq<u8>) -> Seq<u8> {
    Seq::new(
        bytes.len(),
        |i: int|
            if address <= i < address + part.len() {
                part[i - address]
            } else {
                bytes[i]
            },
    )
}

impl Memory {
    /// A memory of `size` bytes, all zero.
    pub fn new(size: usize) -> (memory: Memory)
        ensures
            memory@ == Seq::new(size as nat, |i: int| 0u8),
    {
        let mut data: Vec<u8> = Vec::new();
        let mut i: usize = 0;
        while i < size
            invariant
                i <= size,
                data@ == Seq::new(i as nat, |k: int| 0u8),
            decreases size - i,
        {
            data.push(0);
            i = i + 1;
            assert(data@ =~= Seq::new(i as nat, |k: int| 0u8));
        }
        Memory { data }
    }

    /// A memory that holds the given bytes.
    pub fn from(data: Vec<u8>) -> (memory: Memory)
        ensures
            memory@ == data@,
    {
        Memory { data }
    }

    /// The byte at `address`.
    pub fn read(&self, address: u16) -> (value: u8)
        requires
            address < self@.len(),
        ensures
            value == self@[address as int],
    {
        self.data[address as usize]
    }

    /// The word stored little-endian at `address`.
    pub fn read_word(&self, address: u16) -> (value: u16)
        requires
            address + 1 < self@.len(),
        ensures
            value == word_at(self@, address as int),
    {
        word_from_le(self.data[address as usize], self.data[address as usize + 1])
    }

    /// The `size` bytes from `address` on.
    pub fn read_bytes(&self, address: u16, size: usize) -> (bytes: &[u8])
        requires
            address + size <= self@.len(),
        ensures
            bytes@ == self@.subrange(address as int, address + size),
    {
        let start = address as usize;
        let all = self.data.as_slice();
        let len = all.len();
        assert(start + size <= len);
        &all[start..start + size]
    }

    /// Stores a byte at `address`.
    pub fn write(&mut self, address: u16, value: u8)
        requires
            address < old(self)@.len(),
        ensures
            final(self)@ == old(self)@.update(address as int, value),
    {
        self.data.set(address as usize, value);
    }

    /// Stores a word little-endian at `address`.
    pub fn write_word(&mut self, address: u16, value: u16)
        requires
            address + 1 < old(self)@.len(),
        ensures
            final(self)@ == with_word(old(self)@, address as int, value),
    {
        self.data.set(address as usize, low_byte(value));
        self.data.set(address as usize + 1, high_byte(value));
    }

    /// Stores `data` from `address` on.
    pub fn write_bytes(&mut self, address: u16, data: &[u8])
        requires
            address + data@.len() <= old(self)@.len(),
        ensures
            final(self)@ == with_bytes(old(self)@, address as int, data@),
    {
        let start = address as usize;
        let len = self.data.len();
        let mut i: usize = 0;
        assert(self@ =~= with_bytes(old(self)@, address as int, data@.subrange(0, 0)));
        while i < data.len()
            invariant
                i <= data@.len(),
                start == address,
                start + data@.len() <= self@.len(),
                self@.len() == old(self)@.len(),
                self@.len() == len,
                self@ == with_bytes(old(self)@, address as int, data@.subrange(0, i as int)),
            decreases data@.len() - i,
        {
            self.data.set(start + i, data[i]);
            i = i + 1;
            assert(self@ =~= with_bytes(old(self)@, address as int, data@.subrange(0, i as int)));
        }
        assert(data@.subrange(0, i as int) =~= data@);
    }

    /// The number of bytes.
    pub fn len(&self) -> (n: usize)
        ensures
            n == self@.len(),
    {
        self.data.len()
    }
}

/// A word reads as the low byte with the high byte eight bits above it.
pub proof fn lemma_read_word_bits(bytes: Seq<u8>, address: int)
    ensures
        word_at(bytes, address) == (bytes[address] as u16) | ((bytes[address + 1] as u16) << 8),
{
    let lo = bytes[address];
    let hi = bytes[address + 1];
    assert((lo as u16) | ((hi as u16) << 8) == (lo as u16) + 0x100 * (hi as u16)) by (bit_vector);
}

/// A word that was stored reads back as it was.
pub proof fn lemma_write_then_read_word(bytes: Seq<u8>, address: int, value: u16)
    requires
        0 <= address,
        address + 1 < bytes.len(),
    ensures
        word_at(with_word(bytes, address, value), address) == value,
{
}

} // verus!
