//! The byte store that the processor addresses: 65,536 cells, read and
//! written one byte at a time, with little-endian helpers for 16-bit words.

use vstd::prelude::*;
use crate::word;

verus! {

/// The number of cells that a 16-bit address can reach.
pub const ADDRESS_SPACE: usize = 0x10000;

/// The address that follows `addr`, wrapping from 0xFFFF to 0.
pub open spec fn next_address(addr: int) -> int {
    if addr == 0xffff {
        0
    } else {
        addr + 1
    }
}

/// The little-endian word read from `cells` at `addr`: the low byte at
/// `addr`, the high byte at the address that follows.
pub open spec fn word_at(cells: Seq<u8>, addr: int) -> u16 {
    word::pair(cells[next_address(addr)], cells[addr])
}

/// `cells` after `value` is stored little-endian at `addr`.
pub open spec fn store_word(cells: Seq<u8>, addr: int, value: u16) -> Seq<u8> {
    cells.update(addr, word::low_byte(value)).update(next_address(addr), word::high_byte(value))
}

/// A word that was stored is the word read back from the same address, the
/// store changes no cell but the two of the word, and it keeps the number of
/// cells.
pub proof fn lemma_store_word(cells: Seq<u8>, addr: int, value: u16, other: int)
    requires
        cells.len() == ADDRESS_SPACE,
        0 <= addr < ADDRESS_SPACE,
        0 <= other < ADDRESS_SPACE,
    ensures
        word_at(store_word(cells, addr, value), addr) == value,
        store_word(cells, addr, value).len() == cells.len(),
        other != addr && other != next_address(addr) ==> store_word(cells, addr, value)[other]
            == cells[other],
{
    word::lemma_split_then_join(value);
}

/// A byte store. Its state is the sequence of its cells, which `get` reads
/// and `set` changes at one index, leaving every other cell as it was.
pub trait Memory {
    /// The cells, indexed by address.
    spec fn view(&self) -> Seq<u8>;

    /// Reads the byte at `idx`.
    fn get(&self, idx: usize) -> (value: u8)
        requires
            idx < self@.len(),
        ensures
            value == self@[idx as int],
    ;

    /// Writes `value` at `idx`.
    fn set(&mut self, idx: usize, value: u8)
        requires
            idx < old(self)@.len(),
        ensures
            final(self)@ == old(self)@.update(idx as int, value),
    ;

    /// Reads the little-endian word at `idx`. A word at 0xFFFF has its high
    /// byte at address 0.
    fn get_word(&self, idx: usize) -> (value: u16)
        requires
            self@.len() == ADDRESS_SPACE,
            idx < ADDRESS_SPACE,
        ensures
            value == word_at(self@, idx as int),
    {
        let next = if idx == 0xffff { 0 } else { idx + 1 };
        word::join(self.get(next), self.get(idx))
    }

    /// Writes `value` little-endian at `idx`. A word at 0xFFFF has its high
    /// byte at address 0.
    fn set_word(&mut self, idx: usize, value: u16)
        requires
            old(self)@.len() == ADDRESS_SPACE,
            idx < ADDRESS_SPACE,
        ensures
            final(self)@ == store_word(old(self)@, idx as int, value),
    {
        let next = if idx == 0xffff { 0 } else { idx + 1 };
        self.set(idx, word::low(value));
        self.set(next, word::high(value));
    }
}

/// Copies `image` into `memory`, byte for byte, from address `start` on.
/// Cells outside the image keep what they hold.
pub fn load<M: Memory>(memory: &mut M, image: &[u8], start: usize)
    requires
        start + image@.len() <= old(memory)@.len() <= usize::MAX,
    ensures
        final(memory)@.len() == old(memory)@.len(),
        forall|addr: int|
            0 <= addr < old(memory)@.len() ==> #[trigger] final(memory)@[addr] == (if start <= addr
                < start + image@.len() {
                image@[addr - start]
            } else {
                old(memory)@[addr]
            }),
{
    let mut count: usize = 0;
    while count < image.len()
        invariant
            count <= image@.len(),
            start + image@.len() <= old(memory)@.len() <= usize::MAX,
            memory@.len() == old(memory)@.len(),
            forall|addr: int|
                0 <= addr < old(memory)@.len() ==> #[trigger] memory@[addr] == (if start <= addr
                    < start + count {
                    image@[addr - start]
                } else {
                    old(memory)@[addr]
                }),
        decreases image@.len() - count,
    {
        memory.set(start + count, image[count]);
        count = count + 1;
    }
}

/// Plain memory: every cell can be read and written.
pub struct Linear {
    pub data: Vec<u8>,
}

impl Memory for Linear {
    open spec fn view(&self) -> Seq<u8> {
        self.data@
    }

    fn get(&self, idx: usize) -> (value: u8) {
        self.data[idx]
    }

    fn set(&mut self, idx: usize, value: u8) {
        self.data[idx] = value;
    }
}

impl Linear {
    /// Returns a memory of 65,536 cells, all zero.
    pub fn new() -> (memory: Linear)
        ensures
            memory@.len() == ADDRESS_SPACE,
            forall|addr: int| 0 <= addr < ADDRESS_SPACE ==> memory@[addr] == 0,
    {
        Linear { data: vec![0x00; 0x10000] }
    }
}

} // verus!
