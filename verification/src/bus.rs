//! The address map of the bus: which backing cell each of the 65536
//! addresses resolves to, and what a read or a write through the bus does.

use vstd::prelude::*;
use crate::consts::{
    CARTRIDGE_ROM_SIZE_DEFAULT, PPU_ADDR_SCANLINE, PPU_SCANLINE_IDLE, RAM_ECHO_OFFSET,
    RAM_ECHO_RANGE_START, RAM_EMPTY_RANGE_START, RAM_INTERNAL_RANGE_START,
    RAM_IO_PORTS_RANGE_START, RAM_SIZE, RAM_SPRITE_ATTRIBUTE_TABLE_RANGE_START,
};
use crate::ppu::{PpuView, PPU};
use crate::registers::Registers;

verus! {

/// The regions of the address space, in ascending order of address.
#[derive(Clone, Copy, Debug, PartialEq, Eq, Structural)]
pub enum Region {
    /// The cartridge image, from 0x0000.
    Cartridge,
    /// Video and working memory, from the end of the cartridge image.
    VideoAndWork,
    /// The echo of working memory, from 0xE000.
    Echo,
    /// The sprite attribute table, from 0xFE00.
    SpriteTable,
    /// The display's register block, from 0xFF00.
    IoPorts,
    /// Addresses without a meaning on the hardware, from 0xFF4C. They
    /// are backed by the primary store all the same.
    Unused,
    /// High memory, from 0xFF80 to the end.
    HighMemory,
}

/// The region an address lies in.
pub open spec fn region_of(addr: u16) -> Region {
    if addr < CARTRIDGE_ROM_SIZE_DEFAULT {
        Region::Cartridge
    } else if addr < RAM_ECHO_RANGE_START {
        Region::VideoAndWork
    } else if addr < RAM_SPRITE_ATTRIBUTE_TABLE_RANGE_START {
        Region::Echo
    } else if addr < RAM_IO_PORTS_RANGE_START {
        Region::SpriteTable
    } else if addr < RAM_EMPTY_RANGE_START {
        Region::IoPorts
    } else if addr < RAM_INTERNAL_RANGE_START {
        Region::Unused
    } else {
        Region::HighMemory
    }
}

/// The cell of the primary store that an address resolves to: an echo
/// address resolves to the cell of its primary alias, every other address
/// to the cell with its own number.
pub open spec fn bus_target(addr: u16) -> int {
    if region_of(addr) == Region::Echo {
        addr - RAM_ECHO_OFFSET
    } else {
        addr as int
    }
}

/// What a read through the bus gives.
pub open spec fn bus_read(memory: Seq<u8>, addr: u16) -> u8 {
    if region_of(addr) == Region::IoPorts {
        PPU::register_read(memory, addr)
    } else {
        memory[bus_target(addr)]
    }
}

/// An access, through the bus, to an address without a meaning on the
/// hardware. Such an access is carried out like any other, and recorded.
#[derive(Clone, Copy, Debug, PartialEq, Eq, Structural)]
pub struct Access {
    pub addr: u16,
    /// Whether the access was a write.
    pub write: bool,
}

/// The record after an access: an access to an address without a meaning
/// is added at its end, any other access leaves the record as it is.
pub open spec fn noted(record: Seq<Access>, addr: u16, write: bool) -> Seq<Access> {
    if region_of(addr) == Region::Unused {
        record.push(Access { addr, write })
    } else {
        record
    }
}

/// The state that the engine works on: the register file, the primary
/// store, the display, and the record of the suspicious accesses that the
/// host has not yet taken.
pub ghost struct Machine {
    pub regs: Registers,
    pub memory: Seq<u8>,
    pub display: PpuView,
    pub suspicious: Seq<Access>,
}

impl Machine {
    /// The primary store has a cell for every address, and the display a
    /// whole frame.
    pub open spec fn wf(self) -> bool {
        self.memory.len() >= RAM_SIZE && self.display.wf()
    }

    /// What a read through the bus gives.
    pub open spec fn load(self, addr: u16) -> u8 {
        bus_read(self.memory, addr)
    }

    /// The machine after a read through the bus: nothing changes but the
    /// record.
    pub open spec fn after_read(self, addr: u16) -> Machine {
        Machine { suspicious: noted(self.suspicious, addr, false), ..self }
    }

    /// The machine after a write through the bus: the cell that the address
    /// resolves to takes the value; a write into the display's register
    /// block is shown to the display first; a write to an address without
    /// a meaning is recorded.
    pub open spec fn store(self, addr: u16, value: u8) -> Machine {
        Machine {
            regs: self.regs,
            memory: self.memory.update(bus_target(addr), value),
            display: if region_of(addr) == Region::IoPorts {
                PpuView {
                    frame: self.display.frame,
                    pending: PPU::pending_after_write(
                        self.display.pending,
                        self.memory,
                        addr,
                        value,
                    ),
                }
            } else {
                self.display
            },
            suspicious: noted(self.suspicious, addr, true),
        }
    }
}

/// Records an access if its address has no meaning on the hardware.
pub fn note(record: &mut Vec<Access>, addr: u16, write: bool)
    ensures
        final(record)@ == noted(old(record)@, addr, write),
{
    match get_region(addr) {
        Region::Unused => record.push(Access { addr, write }),
        _ => (),
    }
}

/// Computes the region an address lies in.
pub fn get_region(addr: u16) -> (region: Region)
    ensures
        region == region_of(addr),
{
    if addr < CARTRIDGE_ROM_SIZE_DEFAULT as u16 {
        Region::Cartridge
    } else if addr < RAM_ECHO_RANGE_START {
        Region::VideoAndWork
    } else if addr < RAM_SPRITE_ATTRIBUTE_TABLE_RANGE_START {
        Region::Echo
    } else if addr < RAM_IO_PORTS_RANGE_START {
        Region::SpriteTable
    } else if addr < RAM_EMPTY_RANGE_START {
        Region::IoPorts
    } else if addr < RAM_INTERNAL_RANGE_START {
        Region::Unused
    } else {
        Region::HighMemory
    }
}

/// Every address resolves to exactly one cell of the primary store. A
/// write changes that cell and no other, and leaves the registers and the
/// frame alone; every address but the scanline register reads back what
/// was last written to it, and the scanline register reads idle. An
/// access is recorded exactly if its address has no meaning on the
/// hardware, and is carried out all the same.
pub proof fn lemma_bus_resolves(m: Machine, addr: u16, value: u8)
    requires
        m.wf(),
    ensures
        0 <= bus_target(addr) < RAM_SIZE,
        m.store(addr, value).wf(),
        m.store(addr, value).regs == m.regs,
        m.store(addr, value).display.frame == m.display.frame,
        m.store(addr, value).memory == m.memory.update(bus_target(addr), value),
        m.store(addr, value).suspicious == noted(m.suspicious, addr, true),
        m.after_read(addr) == (Machine { suspicious: noted(m.suspicious, addr, false), ..m }),
        region_of(addr) != Region::Unused ==> m.after_read(addr) == m,
        m.store(addr, value).load(addr) == if addr == PPU_ADDR_SCANLINE {
            PPU_SCANLINE_IDLE
        } else {
            value
        },
        forall|other: u16|
            bus_target(other) != bus_target(addr) ==> #[trigger] m.store(addr, value).load(other)
                == m.load(other),
{
}

/// A write to an echo address is read back at the address 0x2000 below it,
/// and a write there is read back at the echo address.
pub proof fn lemma_echo_aliases(m: Machine, addr: u16, value: u8)
    requires
        m.wf(),
        RAM_ECHO_RANGE_START <= addr < RAM_SPRITE_ATTRIBUTE_TABLE_RANGE_START,
    ensures
        m.store(addr, value).load((addr - RAM_ECHO_OFFSET) as u16) == value,
        m.store((addr - RAM_ECHO_OFFSET) as u16, value).load(addr) == value,
        m.store(addr, value).memory == m.store((addr - RAM_ECHO_OFFSET) as u16, value).memory,
{
}

} // verus!
