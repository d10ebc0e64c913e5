//! The primary byte store behind the bus: the cartridge image followed by
//! working memory, one cell for each of the 65536 addresses.

use vstd::prelude::*;
use crate::consts::RAM_SIZE;
use crate::rom_parser::Rom;

verus! {

pub struct RamMemory {
    memory: Vec<u8>,
}

impl View for RamMemory {
    type V = Seq<u8>;

    closed spec fn view(&self) -> Seq<u8> {
        self.memory@
    }
}

impl RamMemory {
    /// Every bus address has a cell.
    #[verifier::type_invariant]
    pub closed spec fn wf(&self) -> bool {
        self.memory.len() >= RAM_SIZE
    }

    /// Whether a sequence of cells can back the bus.
    pub open spec fn covers_bus(cells: Seq<u8>) -> bool {
        cells.len() >= RAM_SIZE
    }

    /// The store a cartridge image gives: the image itself, followed by
    /// zeroes where it is shorter than the address space.
    pub open spec fn image_of(data: Seq<u8>) -> Seq<u8> {
        if data.len() >= RAM_SIZE {
            data
        } else {
            data + Seq::new((RAM_SIZE - data.len()) as nat, |i: int| 0u8)
        }
    }

    /// Copies the cartridge image into a fresh store.
    pub fn init_from_rom(rom: &Rom) -> (ram: RamMemory)
        ensures
            ram@ == RamMemory::image_of(rom@.data),
            RamMemory::covers_bus(ram@),
    {
        let data = rom.data();
        let mut memory: Vec<u8> = Vec::new();
        let mut i: usize = 0;
        while i < data.len()
            invariant
                data@ == rom@.data,
                i <= data.len(),
                memory@ == rom@.data.take(i as int),
            decreases data.len() - i,
        {
            memory.push(data[i]);
            i += 1;
            assert(memory@ =~= rom@.data.take(i as int));
        }
        assert(memory@ =~= rom@.data);
        while memory.len() < RAM_SIZE
            invariant
                data@ == rom@.data,
                memory.len() >= data.len(),
                data.len() < RAM_SIZE ==> memory.len() <= RAM_SIZE,
                data.len() >= RAM_SIZE ==> memory.len() == data.len(),
                memory@ == rom@.data + Seq::new((memory.len() - data.len()) as nat, |i: int| 0u8),
            decreases RAM_SIZE - memory.len(),
        {
            memory.push(0x00);
            assert(memory@ =~= rom@.data + Seq::new(
                (memory.len() - data.len()) as nat,
                |i: int| 0u8,
            ));
        }
        assert(memory@ =~= RamMemory::image_of(rom@.data));
        RamMemory { memory }
    }

    /// The cell at `addr`.
    pub fn get_addr(&self, addr: u16) -> (value: u8)
        ensures
            RamMemory::covers_bus(self@),
            value == self@[addr as int],
    {
        proof {
            use_type_invariant(self);
        }
        self.memory[addr as usize]
    }

    /// Stores `value` in the cell at `addr`; no other cell changes.
    pub fn set_addr(&mut self, addr: u16, value: u8)
        ensures
            RamMemory::covers_bus(old(self)@),
            final(self)@ == old(self)@.update(addr as int, value),
    {
        proof {
            use_type_invariant(&*self);
        }
        self.memory[addr as usize] = value;
    }

    /// Number of cells, never fewer than there are bus addresses.
    pub fn len(&self) -> (n: usize)
        ensures
            n == self@.len(),
            n >= RAM_SIZE,
    {
        proof {
            use_type_invariant(self);
        }
        self.memory.len()
    }
}

} // verus!
