//! The flat 64 KiB address space, modelled as a sequence of 65536 bytes.
//!
//! Sixteen-bit words are stored little-endian: the low byte at the address,
//! the high byte at the address after it. The address after 0xFFFF is 0x0000,
//! so a word at 0xFFFF has its high byte at the bottom of memory.

use vstd::prelude::*;

verus! {

/// Number of addressable bytes.
pub const MEMORY_SIZE: usize = 0x10000;

/// The address following `addr`, wrapping from 0xFFFF to 0x0000.
pub open spec fn next_address(addr: u16) -> u16 {
    ((addr + 1) % 0x10000) as u16
}

/// The word made of a low and a high byte.
pub open spec fn word(lo: u8, hi: u8) -> u16 {
    (hi * 0x100 + lo) as u16
}

/// The low byte of a word.
pub open spec fn low_byte(data: u16) -> u8 {
    (data % 0x100) as u8
}

/// The high byte of a word.
pub open spec fn high_byte(data: u16) -> u8 {
    (data / 0x100) as u8
}

/// The little-endian word stored at `addr`.
pub open spec fn read16(mem: Seq<u8>, addr: u16) -> u16 {
    word(mem[addr as int], mem[next_address(addr) as int])
}

/// Memory after the little-endian word `data` has been stored at `addr`.
pub open spec fn write16(mem: Seq<u8>, addr: u16, data: u16) -> Seq<u8> {
    mem.update(addr as int, low_byte(data)).update(next_address(addr) as int, high_byte(data))
}

/// The processor's memory: 65536 bytes, every 16-bit address valid.
pub struct Memory {
    bytes: [u8; MEMORY_SIZE],
}

impl View for Memory {
    type V = Seq<u8>;

    closed spec fn view(&self) -> Seq<u8> {
        self.bytes@
    }
}

impl Memory {
    /// Memory always holds exactly 65536 bytes.
    pub proof fn lemma_len(&self)
        ensures
            self@.len() == MEMORY_SIZE,
    {
        broadcast use vstd::array::array_len_matches_n;

    }

    /// Memory with every byte zero.
    pub fn new() -> (memory: Memory)
        ensures
            memory@ == Seq::new(MEMORY_SIZE as nat, |i: int| 0u8),
    {
        let memory = Memory { bytes: [0x00;MEMORY_SIZE] };
        proof {
            broadcast use vstd::array::group_array_axioms;

            assert(memory@ =~= Seq::new(MEMORY_SIZE as nat, |i: int| 0u8));
        }
        memory
    }

    /// Reads the byte at `addr`.
    pub fn read(&self, addr: u16) -> (data: u8)
        ensures
            data == self@[addr as int],
    {
        self.bytes[addr as usize]
    }

    /// Stores `data` at `addr`; no other byte changes.
    pub fn write(&mut self, addr: u16, data: u8)
        ensures
            final(self)@ == old(self)@.update(addr as int, data),
    {
        self.bytes[addr as usize] = data;
    }

    /// Reads the little-endian word at `addr`: the low byte from `addr`, the
    /// high byte from the address after it. At `addr == 0xFFFF` the high byte
    /// comes from address 0x0000.
    pub fn read16(&self, addr: u16) -> (data: u16)
        ensures
            data == read16(self@, addr),
    {
        let lo = self.read(addr);
        let hi = self.read(addr.wrapping_add(1));
        proof {
            lemma_word_from_bytes(lo, hi);
        }
        ((hi as u16) << 8) | (lo as u16)
    }

    /// Stores the little-endian word `data` at `addr`: the low byte at
    /// `addr`, the high byte at the address after it. At `addr == 0xFFFF` the
    /// high byte goes to address 0x0000.
    pub fn write16(&mut self, addr: u16, data: u16)
        ensures
            final(self)@ == write16(old(self)@, addr, data),
    {
        let hi = (data >> 8) as u8;
        let lo = (data & 0xff) as u8;
        proof {
            lemma_bytes_from_word(data);
        }
        self.write(addr, lo);
        self.write(addr.wrapping_add(1), hi);
    }
}

/// Shifting and or-ing two bytes together builds the word they spell.
pub proof fn lemma_word_from_bytes(lo: u8, hi: u8)
    ensures
        ((hi as u16) << 8) | (lo as u16) == word(lo, hi),
{
    assert(((hi as u16) << 8) | (lo as u16) == (hi as u16) * 0x100 + (lo as u16)) by (bit_vector);
}

/// Shifting and masking a word takes it apart into its two bytes.
pub proof fn lemma_bytes_from_word(data: u16)
    ensures
        (data >> 8) == high_byte(data),
        (data & 0xff) == low_byte(data),
        word(low_byte(data), high_byte(data)) == data,
{
    assert((data >> 8) == data / 0x100 && (data & 0xff) == data % 0x100) by (bit_vector);
}

/// A word and its two bytes determine each other.
pub proof fn lemma_word_bytes(lo: u8, hi: u8)
    ensures
        low_byte(word(lo, hi)) == lo,
        high_byte(word(lo, hi)) == hi,
{
}

/// Reading back a word just written returns that word.
pub proof fn lemma_read16_after_write16(mem: Seq<u8>, addr: u16, data: u16)
    requires
        mem.len() == MEMORY_SIZE,
    ensures
        write16(mem, addr, data).len() == MEMORY_SIZE,
        read16(write16(mem, addr, data), addr) == data,
{
    lemma_bytes_from_word(data);
}

/// Writing a word changes the two bytes it occupies and no others.
pub proof fn lemma_write16_frame(mem: Seq<u8>, addr: u16, data: u16, other: int)
    requires
        mem.len() == MEMORY_SIZE,
        0 <= other < MEMORY_SIZE,
        other != addr,
        other != next_address(addr),
    ensures
        write16(mem, addr, data)[other] == mem[other],
{
}

} // verus!
