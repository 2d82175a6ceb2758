//! Word-organized little-endian memory block, the collaborator model used by
//! the surrounding harness. The block stores whole 32-bit words; byte and
//! halfword accesses select the lane from the low address bits, exactly as the
//! core expects from any peripheral wired to it.

use vstd::prelude::*;

verus! {

broadcast use crate::common::lemma_and_mask_bound_u32;

/// A contiguous block of memory, possibly read-only, covering the address
/// range `[init_address, init_address + size)`.
pub struct Memory {
    is_read_only: bool,
    data: Vec<u32>,
    init_address: u32,
    size: u32,
    name: String,
}

impl Memory {
    /// The words stored by the block, lowest address first.
    pub closed spec fn words(&self) -> Seq<u32> {
        self.data@
    }

    /// First address covered by the block.
    pub closed spec fn start(&self) -> u32 {
        self.init_address
    }

    /// Number of bytes covered by the block.
    pub closed spec fn byte_size(&self) -> u32 {
        self.size
    }

    /// Whether writes are ignored.
    pub closed spec fn read_only(&self) -> bool {
        self.is_read_only
    }

    /// The block stores one word for every four bytes of its range.
    pub closed spec fn wf(&self) -> bool {
        &&& self.size % 4 == 0
        &&& self.data@.len() * 4 == self.size
    }

    /// Whether `address` falls inside the block.
    pub open spec fn in_range(&self, address: u32) -> bool {
        self.start() <= address && address - self.start() < self.byte_size()
    }

    /// Index of the word that contains `address`.
    pub open spec fn word_index(&self, address: u32) -> int {
        (address - self.start()) / 4
    }

    /// The stored word containing `address`.
    pub open spec fn spec_word_at(&self, address: u32) -> u32 {
        self.words()[self.word_index(address)]
    }

    /// Create a block of `size` bytes filled with zeros.
    pub fn new(init_address: u32, size: u32, rom: bool, name: String) -> (r: Memory)
        requires
            size % 4 == 0,
        ensures
            r.wf(),
            r.start() == init_address,
            r.byte_size() == size,
            r.read_only() == rom,
            r.words() == Seq::new((size / 4) as nat, |i: int| 0u32),
    {
        let word_count = (size / 4) as usize;
        let mut data: Vec<u32> = Vec::new();
        let mut i: usize = 0;
        while i < word_count
            invariant
                i <= word_count,
                data@.len() == i,
                forall|j: int| 0 <= j < i ==> data@[j] == 0u32,
            decreases word_count - i,
        {
            data.push(0);
            i += 1;
        }
        let r = Self { is_read_only: rom, data, init_address, size, name };
        proof {
            assert(r.words() =~= Seq::new((size / 4) as nat, |i: int| 0u32));
        }
        r
    }

    /// Read the whole word containing `address`; the transfer size never
    /// narrows the returned data, lane selection is the core's duty.
    pub fn read(&self, address: u32, mas: crate::bus::TransferSize) -> (r: u32)
        requires
            self.wf(),
            self.in_range(address),
        ensures
            r == self.spec_word_at(address),
    {
        let idx = ((address - self.init_address) / 4) as usize;
        self.data[idx]
    }

    /// Read the byte at `address` (little-endian lane selection).
    pub fn read_byte(&self, address: u32) -> (r: u32)
        requires
            self.wf(),
            self.in_range(address),
        ensures
            r == (self.spec_word_at(address) >> ((address % 4) * 8)) & 0xff,
    {
        let offset = address % 4;
        let idx = ((address - self.init_address) / 4) as usize;
        (self.data[idx] >> (offset * 8)) & 0xff
    }

    /// Read the halfword containing `address` (little-endian lane selection).
    pub fn read_halfword(&self, address: u32) -> (r: u32)
        requires
            self.wf(),
            self.in_range(address),
        ensures
            r == (self.spec_word_at(address) >> (((address >> 1) & 1) * 16)) & 0xffff,
    {
        let offset = (address >> 1) & 1;
        let idx = ((address - self.init_address) / 4) as usize;
        (self.data[idx] >> (offset * 16)) & 0xffff
    }

    /// Read the whole word containing `address`.
    pub fn read_word(&self, address: u32) -> (r: u32)
        requires
            self.wf(),
            self.in_range(address),
        ensures
            r == self.spec_word_at(address),
    {
        let idx = ((address - self.init_address) / 4) as usize;
        self.data[idx]
    }

    /// The word stored after writing `data` with size `mas` over `old_word`.
    /// A byte or halfword write takes its payload from the lane it writes,
    /// matching a core that replicates the payload across the bus lanes.
    pub open spec fn spec_merged_word(old_word: u32, address: u32, data: u32,
        mas: crate::bus::TransferSize) -> u32 {
        match mas {
            crate::bus::TransferSize::BYTE => {
                let mask = (0xffu32 << (((address % 4) * 8) as u32)) as u32;
                (old_word & !mask) | (data & mask)
            },
            crate::bus::TransferSize::HALFWORD => {
                let mask = (0xffffu32 << ((((address >> 1) & 1) * 16) as u32)) as u32;
                (old_word & !mask) | (data & mask)
            },
            crate::bus::TransferSize::WORD => data,
        }
    }

    /// Write `data` with size `mas` at `address`; a read-only block ignores
    /// the write, otherwise exactly the addressed lanes of one word change.
    pub fn write(&mut self, address: u32, data: u32, mas: crate::bus::TransferSize)
        requires
            old(self).wf(),
            old(self).in_range(address),
        ensures
            final(self).wf(),
            final(self).start() == old(self).start(),
            final(self).byte_size() == old(self).byte_size(),
            final(self).read_only() == old(self).read_only(),
            old(self).read_only() ==> final(self).words() == old(self).words(),
            !old(self).read_only() ==> final(self).words() == old(self).words().update(
                old(self).word_index(address),
                Self::spec_merged_word(old(self).spec_word_at(address), address, data, mas),
            ),
    {
        if self.is_read_only {
            return;
        }

        let idx = ((address - self.init_address) / 4) as usize;
        match mas {
            crate::bus::TransferSize::BYTE => {
                let offset = address % 4;
                let mask: u32 = 0xff << (offset * 8);
                let mut word = self.data[idx];
                word &= !mask;
                word |= data & mask;
                self.data.set(idx, word);
            },
            crate::bus::TransferSize::HALFWORD => {
                let offset = (address >> 1) & 1;
                let mask: u32 = 0xffff << (offset * 16);
                let mut word = self.data[idx];
                word &= !mask;
                word |= data & mask;
                self.data.set(idx, word);
            },
            crate::bus::TransferSize::WORD => {
                self.data.set(idx, data);
            },
        }
    }

    /// Fill the block from a byte image, assembling each word from four
    /// consecutive bytes in little-endian order; bytes beyond the block and a
    /// trailing partial word are ignored, unfilled words keep their value.
    pub fn load_bytes(&mut self, image: &Vec<u8>)
        requires
            old(self).wf(),
        ensures
            final(self).wf(),
            final(self).start() == old(self).start(),
            final(self).byte_size() == old(self).byte_size(),
            final(self).read_only() == old(self).read_only(),
            final(self).words().len() == old(self).words().len(),
            forall|i: int| 0 <= i < final(self).words().len() ==> final(self).words()[i] == (
                if 4 * i + 3 < image@.len() {
                    (image@[4 * i] as u32)
                        | ((image@[4 * i + 1] as u32) << 8u32)
                        | ((image@[4 * i + 2] as u32) << 16u32)
                        | ((image@[4 * i + 3] as u32) << 24u32)
                } else {
                    old(self).words()[i]
                }
            ),
    {
        let mut i: usize = 0;
        let word_count = self.data.len();
        while i < word_count
            invariant
                i <= word_count,
                word_count == self.data@.len(),
                self.wf(),
                self.is_read_only == old(self).read_only(),
                self.init_address == old(self).start(),
                self.size == old(self).byte_size(),
                self.data@.len() == old(self).words().len(),
                forall|j: int| 0 <= j < i ==> self.data@[j] == (
                    if 4 * j + 3 < image@.len() {
                        (image@[4 * j] as u32)
                            | ((image@[4 * j + 1] as u32) << 8u32)
                            | ((image@[4 * j + 2] as u32) << 16u32)
                            | ((image@[4 * j + 3] as u32) << 24u32)
                    } else {
                        old(self).words()[j]
                    }
                ),
                forall|j: int| i <= j < word_count ==> self.data@[j] == old(self).words()[j],
            decreases word_count - i,
        {
            if 4 * i + 3 < image.len() {
                let word = (image[4 * i] as u32)
                    | ((image[4 * i + 1] as u32) << 8u32)
                    | ((image[4 * i + 2] as u32) << 16u32)
                    | ((image[4 * i + 3] as u32) << 24u32);
                self.data.set(i, word);
            }
            i += 1;
        }
    }
}

} // verus!
