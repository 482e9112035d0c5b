//! The cartridge behind the bus: a program image without bank switching,
//! and the cartridge's own RAM.
use vstd::prelude::*;

verus! {

pub const CART_RAM_SIZE: usize = 0x2000;

/// What the program image reads back past its end.
pub const OPEN_BUS: u8 = 0xFF;

pub struct Cartridge {
    rom: Vec<u8>,
    ram: Vec<u8>,
}

impl Cartridge {
    pub open spec fn wf(self) -> bool {
        self.ram_view().len() == CART_RAM_SIZE
    }

    pub closed spec fn rom_view(self) -> Seq<u8> {
        self.rom@
    }

    pub closed spec fn ram_view(self) -> Seq<u8> {
        self.ram@
    }

    /// The byte at a program address (below 0x8000).
    pub open spec fn rom_byte(self, addr: u16) -> u8 {
        if (addr as int) < self.rom_view().len() { self.rom_view()[addr as int] } else { OPEN_BUS }
    }

    /// A cartridge holding `rom`, with its RAM zeroed.
    pub fn new(rom: Vec<u8>) -> (r: Cartridge)
        ensures
            r.wf(),
            r.rom_view() == rom@,
            r.ram_view() == Seq::new(CART_RAM_SIZE as nat, |i: int| 0u8),
    {
        let ram = vec![0u8; CART_RAM_SIZE];
        assert(ram@ =~= Seq::new(CART_RAM_SIZE as nat, |i: int| 0u8));
        Cartridge { rom, ram }
    }

    pub fn read_rom(&self, addr: u16) -> (r: u8)
        ensures
            r == self.rom_byte(addr),
    {
        if (addr as usize) < self.rom.len() {
            self.rom[addr as usize]
        } else {
            OPEN_BUS
        }
    }

    /// A write into the program window. This cartridge has no bank
    /// controller, so the write is dropped.
    pub fn write_rom(&mut self, addr: u16, byte: u8)
        requires
            old(self).wf(),
        ensures
            *final(self) == *old(self),
    {
    }

    pub fn read_ram(&self, offset: u16) -> (r: u8)
        requires
            self.wf(),
            offset < CART_RAM_SIZE,
        ensures
            r == self.ram_view()[offset as int],
    {
        self.ram[offset as usize]
    }

    pub fn write_ram(&mut self, offset: u16, byte: u8)
        requires
            old(self).wf(),
            offset < CART_RAM_SIZE,
        ensures
            final(self).wf(),
            final(self).rom_view() == old(self).rom_view(),
            final(self).ram_view() == old(self).ram_view().update(offset as int, byte),
    {
        self.ram.set(offset as usize, byte);
    }
}

} // verus!
