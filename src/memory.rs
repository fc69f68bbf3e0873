use vstd::prelude::*;

use crate::cpu::registers::word;

verus! {

/// Number of addressable bytes.
pub const MEMORY_SIZE: usize = 0x10000;

/// The whole 64 KiB address space. Every region (ROM banks, video RAM, external RAM,
/// work RAM, echo RAM, sprite attributes, the unused block, I/O registers, high RAM and
/// the interrupt-enable byte) is stored on its own, so no two addresses alias and the
/// space behaves as one flat byte buffer.
pub struct Memory {
    data: [u8; MEMORY_SIZE],
}

impl View for Memory {
    type V = Seq<u8>;

    closed spec fn view(&self) -> Seq<u8> {
        self.data@
    }
}

/// The byte at `address` in a memory image.
pub open spec fn byte_at(mem: Seq<u8>, address: u16) -> u8 {
    mem[address as int]
}

/// The little-endian word at `address`: low byte there, high byte at the next address
/// (wrapping at the top of the space).
pub open spec fn word_at(mem: Seq<u8>, address: u16) -> u16 {
    word(mem[address.wrapping_add(1) as int], mem[address as int])
}

/// A memory image with a little-endian word written at `address`.
pub open spec fn with_word(mem: Seq<u8>, address: u16, value: u16) -> Seq<u8> {
    mem.update(address as int, value as u8).update(address.wrapping_add(1) as int, (value >> 8u16) as u8)
}

/// A memory image with `data` copied in from `start` on.
pub open spec fn loaded(mem: Seq<u8>, start: int, data: Seq<u8>) -> Seq<u8> {
    Seq::new(
        mem.len(),
        |i: int|
            if start <= i < start + data.len() {
                data[i - start]
            } else {
                mem[i]
            },
    )
}

impl Memory {
    /// The number of bytes held: always 65 536.
    pub fn len(&self) -> (r: usize)
        ensures
            r == self@.len(),
            r == MEMORY_SIZE,
    {
        MEMORY_SIZE
    }

    /// A zeroed address space.
    pub fn new() -> (r: Memory)
        ensures
            r@ == Seq::new(MEMORY_SIZE as nat, |i: int| 0u8),
    {
        let data = [0u8; MEMORY_SIZE];
        assert(data@ =~= Seq::new(MEMORY_SIZE as nat, |i: int| 0u8));
        Memory { data }
    }

    /// The byte at `address`.
    pub fn read(&self, address: u16) -> (r: u8)
        ensures
            r == byte_at(self@, address),
    {
        self.data[address as usize]
    }

    /// The little-endian word at `address`.
    pub fn read_16(&self, address: u16) -> (r: u16)
        ensures
            r == word_at(self@, address),
    {
        let low = self.read(address);
        let high = self.read(address.wrapping_add(1));
        ((high as u16) << 8u16) | (low as u16)
    }

    /// Stores `value` at `address`.
    pub fn write(&mut self, address: u16, value: u8)
        ensures
            final(self)@ == old(self)@.update(address as int, value),
    {
        self.data[address as usize] = value;
    }

    /// Stores `value` little-endian at `address` and the next address.
    pub fn write_16(&mut self, address: u16, value: u16)
        ensures
            final(self)@ == with_word(old(self)@, address, value),
    {
        self.write(address, value as u8);
        self.write(address.wrapping_add(1), (value >> 8u16) as u8);
    }

    /// Copies `data` into memory from `start_address` on.
    pub fn write_vec(&mut self, start_address: u16, data: Vec<u8>)
        requires
            start_address as int + data@.len() <= MEMORY_SIZE,
        ensures
            final(self)@ == loaded(old(self)@, start_address as int, data@),
    {
        let ghost before = self@;
        let mut i: usize = 0;
        while i < data.len()
            invariant
                start_address as int + data@.len() <= MEMORY_SIZE,
                i <= data@.len(),
                self@.len() == before.len(),
                before.len() == MEMORY_SIZE,
                forall|j: int|
                    0 <= j < before.len() ==> #[trigger] self@[j] == if start_address <= j
                        < start_address + i {
                        data@[j - start_address]
                    } else {
                        before[j]
                    },
            decreases data@.len() - i,
        {
            self.write((start_address as usize + i) as u16, data[i]);
            i = i + 1;
        }
        assert(self@ =~= loaded(before, start_address as int, data@));
    }

    /// A copy of the whole address space.
    pub fn dump(&self) -> (r: Vec<u8>)
        ensures
            r@ == self@,
    {
        let mut r: Vec<u8> = Vec::with_capacity(MEMORY_SIZE);
        let mut i: usize = 0;
        while i < MEMORY_SIZE
            invariant
                i <= MEMORY_SIZE,
                self@.len() == MEMORY_SIZE,
                r@ == self@.take(i as int),
            decreases MEMORY_SIZE - i,
        {
            r.push(self.data[i]);
            i = i + 1;
            assert(r@ =~= self@.take(i as int));
        }
        assert(r@ =~= self@);
        r
    }
}

/// Reading a word back where it was just written gives the word.
pub proof fn lemma_word_write_read(mem: Seq<u8>, address: u16, value: u16)
    requires
        mem.len() == MEMORY_SIZE,
    ensures
        word_at(with_word(mem, address, value), address) == value,
{
    crate::cpu::registers::lemma_word_split(value);
}

/// Reading an address after writing it gives the written byte, for every address,
/// and leaves every other address as it was.
pub proof fn lemma_write_read(mem: Seq<u8>, address: u16, value: u8, other: u16)
    requires
        mem.len() == MEMORY_SIZE,
    ensures
        byte_at(mem.update(address as int, value), address) == value,
        other != address ==> byte_at(mem.update(address as int, value), other) == byte_at(mem, other),
{
}

} // verus!
