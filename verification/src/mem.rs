//! A banked block of cartridge memory. All addressing goes through a
//! `(bank, offset)` pair: the byte reached is `bank * bank_size + offset`.

use vstd::prelude::*;

verus! {

/// Representation of a memory block in the mapper.
pub struct Memory {
    mem: Vec<u8>,
    num_banks: usize,
    bank_size: usize,
}

impl Memory {
    /// The bytes held by the block.
    pub closed spec fn view(&self) -> Seq<u8> {
        self.mem@
    }

    /// The number of banks the block was created with.
    pub closed spec fn spec_num_banks(&self) -> usize {
        self.num_banks
    }

    /// The current size of one bank, in bytes.
    pub closed spec fn spec_bank_size(&self) -> usize {
        self.bank_size
    }

    pub fn new(mem: Vec<u8>, num_banks: usize, bank_size: usize) -> (r: Memory)
        ensures
            r@ == mem@,
            r.spec_num_banks() == num_banks,
            r.spec_bank_size() == bank_size,
    {
        Memory { mem, num_banks, bank_size }
    }

    /// Read the byte at `index` within `bank`.
    pub fn read(&self, bank: usize, index: usize) -> (r: u8)
        requires
            bank * self.spec_bank_size() + index < self@.len(),
        ensures
            r == self@[bank * self.spec_bank_size() + index],
    {
        let n = self.mem.len();
        let bank_offset = self.get_bank_offset(bank);
        self.mem[bank_offset + index]
    }

    /// Explicitly read from the first bank of memory.
    pub fn read_first(&self, index: usize) -> (r: u8)
        requires
            index < self@.len(),
        ensures
            r == self@[index as int],
    {
        self.read(0, index)
    }

    /// Explicitly read from the last bank of memory.
    pub fn read_last(&self, index: usize) -> (r: u8)
        requires
            self.spec_num_banks() >= 1,
            (self.spec_num_banks() - 1) * self.spec_bank_size() + index < self@.len(),
        ensures
            r == self@[(self.spec_num_banks() - 1) * self.spec_bank_size() + index],
    {
        self.read(self.num_banks - 1, index)
    }

    /// Write `data` to the byte at `index` within `bank`.
    pub fn write(&mut self, bank: usize, index: usize, data: u8)
        requires
            bank * old(self).spec_bank_size() + index < old(self)@.len(),
        ensures
            final(self)@ == old(self)@.update(
                bank * old(self).spec_bank_size() + index,
                data,
            ),
            final(self).spec_num_banks() == old(self).spec_num_banks(),
            final(self).spec_bank_size() == old(self).spec_bank_size(),
    {
        let n = self.mem.len();
        let bank_offset = self.get_bank_offset(bank);
        let i = bank_offset + index;
        self.mem[i] = data;
    }

    /// Total size of the block in bytes.
    pub fn size(&self) -> (r: usize)
        ensures
            r == self@.len(),
    {
        self.mem.len()
    }

    /// Reconfigure the bank size; the underlying bytes are unchanged.
    pub fn set_bank_size(&mut self, new_size: usize)
        ensures
            final(self)@ == old(self)@,
            final(self).spec_num_banks() == old(self).spec_num_banks(),
            final(self).spec_bank_size() == new_size,
    {
        self.bank_size = new_size;
    }

    /// The number of banks the block was created with.
    pub fn num_banks(&self) -> (r: usize)
        ensures
            r == self.spec_num_banks(),
    {
        self.num_banks
    }

    fn get_bank_offset(&self, bank_num: usize) -> (r: usize)
        requires
            bank_num * self.spec_bank_size() < usize::MAX,
        ensures
            r == bank_num * self.spec_bank_size(),
    {
        bank_num * self.bank_size
    }
}

} // verus!
