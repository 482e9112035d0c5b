//! The memory bus: decodes each 16-bit address to the one region that owns it.
use vstd::prelude::*;
use crate::cartridge::{Cartridge, CART_RAM_SIZE};

verus! {

pub const BOOTROM_SIZE: usize = 0x0100;
pub const VRAM_SIZE: usize = 0x2000;
pub const VRAM_START: u16 = 0x8000;
pub const CART_RAM_START: u16 = 0xA000;
pub const RAM_SIZE: usize = 0x2000;
pub const RAM_START: u16 = 0xC000;
pub const ECHO_START: u16 = 0xE000;
pub const SPRATTRTABLE_SIZE: usize = 0xA0;
pub const SPRATTRTABLE_START: u16 = 0xFE00;
pub const PROHIBITED_START: u16 = 0xFEA0;
pub const IOREG_SIZE: usize = 0x80;
pub const IOREG_START: u16 = 0xFF00;
pub const HRAM_SIZE: usize = 0x7F;
pub const HRAM_START: u16 = 0xFF80;
pub const IE_ADDR: u16 = 0xFFFF;

/// The system's address space.
pub struct Bus {
    bootrom: Vec<u8>,
    cartridge: Cartridge,
    vram: Vec<u8>,
    ram: Vec<u8>,
    spr_attr_table: Vec<u8>,
    io_reg: Vec<u8>,
    hram: Vec<u8>,
    ie_reg: u8,
}

/// The boot firmware image.
pub open spec fn boot_image() -> Seq<u8> {
    seq![
        0x31u8, 0xFE, 0xFF, 0xAF, 0x21, 0xFF, 0x9F, 0x32, 0xCB, 0x7C, 0x20, 0xFB, 0x21, 0x26,
        0xFF, 0x0E, 0x11, 0x3E, 0x80, 0x32, 0xE2, 0x0C, 0x3E, 0xF3, 0xE2, 0x32, 0x3E, 0x77,
        0x77, 0x3E, 0xFC, 0xE0, 0x47, 0x11, 0x04, 0x01, 0x21, 0x10, 0x80, 0x1A, 0xCD, 0x95,
        0x00, 0xCD, 0x96, 0x00, 0x13, 0x7B, 0xFE, 0x34, 0x20, 0xF3, 0x11, 0xD8, 0x00, 0x06,
        0x08, 0x1A, 0x13, 0x22, 0x23, 0x05, 0x20, 0xF9, 0x3E, 0x19, 0xEA, 0x10, 0x99, 0x21,
        0x2F, 0x99, 0x0E, 0x0C, 0x3D, 0x28, 0x08, 0x32, 0x0D, 0x20, 0xF9, 0x2E, 0x0F, 0x18,
        0xF3, 0x67, 0x3E, 0x64, 0x57, 0xE0, 0x42, 0x3E, 0x91, 0xE0, 0x40, 0x04, 0x1E, 0x02,
        0x0E, 0x0C, 0xF0, 0x44, 0xFE, 0x90, 0x20, 0xFA, 0x0D, 0x20, 0xF7, 0x1D, 0x20, 0xF2,
        0x0E, 0x13, 0x24, 0x7C, 0x1E, 0x83, 0xFE, 0x62, 0x28, 0x06, 0x1E, 0xC1, 0xFE, 0x64,
        0x20, 0x06, 0x7B, 0xE2, 0x0C, 0x3E, 0x87, 0xE2, 0xF0, 0x42, 0x90, 0xE0, 0x42, 0x15,
        0x20, 0xD2, 0x05, 0x20, 0x4F, 0x16, 0x20, 0x18, 0xCB, 0x4F, 0x06, 0x04, 0xC5, 0xCB,
        0x11, 0x17, 0xC1, 0xCB, 0x11, 0x17, 0x05, 0x20, 0xF5, 0x22, 0x23, 0x22, 0x23, 0xC9,
        0xCE, 0xED, 0x66, 0x66, 0xCC, 0x0D, 0x00, 0x0B, 0x03, 0x73, 0x00, 0x83, 0x00, 0x0C,
        0x00, 0x0D, 0x00, 0x08, 0x11, 0x1F, 0x88, 0x89, 0x00, 0x0E, 0xDC, 0xCC, 0x6E, 0xE6,
        0xDD, 0xDD, 0xD9, 0x99, 0xBB, 0xBB, 0x67, 0x63, 0x6E, 0x0E, 0xEC, 0xCC, 0xDD, 0xDC,
        0x99, 0x9F, 0xBB, 0xB9, 0x33, 0x3E, 0x3C, 0x42, 0xB9, 0xA5, 0xB9, 0xA5, 0x42, 0x3C,
        0x21, 0x04, 0x01, 0x11, 0xA8, 0x00, 0x1A, 0x13, 0xBE, 0x20, 0xFE, 0x23, 0x7D, 0xFE,
        0x34, 0x20, 0xF5, 0x06, 0x19, 0x78, 0x86, 0x23, 0x05, 0x20, 0xFB, 0x86, 0x20, 0xFE,
        0x3E, 0x01, 0xE0, 0x50,
    ]
}

/// The storage cell behind an address: echo addresses share the cell of the
/// working-memory address 0x2000 below them; every other address is its own cell.
pub open spec fn cell(addr: u16) -> int {
    if ECHO_START <= addr && addr < SPRATTRTABLE_START { addr - 0x2000 } else { addr as int }
}

/// Whether a write to `addr` is kept: the program image and the prohibited
/// region drop writes.
pub open spec fn writable(addr: u16) -> bool {
    !(addr < VRAM_START) && !(PROHIBITED_START <= addr && addr < IOREG_START)
}

impl Bus {
    pub closed spec fn bootrom_view(self) -> Seq<u8> {
        self.bootrom@
    }

    pub closed spec fn cart(self) -> Cartridge {
        self.cartridge
    }

    pub closed spec fn vram_view(self) -> Seq<u8> {
        self.vram@
    }

    pub closed spec fn ram_view(self) -> Seq<u8> {
        self.ram@
    }

    pub closed spec fn oam_view(self) -> Seq<u8> {
        self.spr_attr_table@
    }

    pub closed spec fn io_view(self) -> Seq<u8> {
        self.io_reg@
    }

    pub closed spec fn hram_view(self) -> Seq<u8> {
        self.hram@
    }

    pub closed spec fn ie(self) -> u8 {
        self.ie_reg
    }

    pub open spec fn wf(self) -> bool {
        &&& self.bootrom_view().len() == BOOTROM_SIZE
        &&& self.cart().wf()
        &&& self.vram_view().len() == VRAM_SIZE
        &&& self.ram_view().len() == RAM_SIZE
        &&& self.oam_view().len() == SPRATTRTABLE_SIZE
        &&& self.io_view().len() == IOREG_SIZE
        &&& self.hram_view().len() == HRAM_SIZE
    }

    /// The byte that a read of `addr` returns.
    pub open spec fn read_spec(self, addr: u16) -> u8 {
        if addr < VRAM_START {
            self.cart().rom_byte(addr)
        } else if addr < CART_RAM_START {
            self.vram_view()[addr - VRAM_START]
        } else if addr < RAM_START {
            self.cart().ram_view()[addr - CART_RAM_START]
        } else if addr < ECHO_START {
            self.ram_view()[addr - RAM_START]
        } else if addr < SPRATTRTABLE_START {
            self.ram_view()[addr - ECHO_START]
        } else if addr < PROHIBITED_START {
            self.oam_view()[addr - SPRATTRTABLE_START]
        } else if addr < IOREG_START {
            0
        } else if addr < HRAM_START {
            self.io_view()[addr - IOREG_START]
        } else if addr < IE_ADDR {
            self.hram_view()[addr - HRAM_START]
        } else {
            self.ie()
        }
    }

    /// `next` is this bus after a write of `byte` to `addr`: every address
    /// that shares the cell of `addr` reads `byte` if the write is kept, and
    /// everything else, the firmware and the program image included, is as before.
    pub open spec fn wrote(self, next: Bus, addr: u16, byte: u8) -> bool {
        &&& next.wf()
        &&& next.bootrom_view() == self.bootrom_view()
        &&& next.cart().rom_view() == self.cart().rom_view()
        &&& forall|a: u16| #[trigger]
            next.read_spec(a) == if cell(a) == cell(addr) && writable(addr) {
                byte
            } else {
                self.read_spec(a)
            }
    }

    /// A bus around the program image `rom`, with the boot firmware loaded and
    /// every RAM region zeroed.
    pub fn new(rom: Vec<u8>) -> (r: Bus)
        ensures
            r.wf(),
            r.bootrom_view() == boot_image(),
            r.cart().rom_view() == rom@,
            forall|a: u16| VRAM_START <= a ==> #[trigger] r.read_spec(a) == 0,
    {
        let bootrom: Vec<u8> = vec![
            0x31u8, 0xFE, 0xFF, 0xAF, 0x21, 0xFF, 0x9F, 0x32, 0xCB, 0x7C, 0x20, 0xFB, 0x21, 0x26,
            0xFF, 0x0E, 0x11, 0x3E, 0x80, 0x32, 0xE2, 0x0C, 0x3E, 0xF3, 0xE2, 0x32, 0x3E, 0x77,
            0x77, 0x3E, 0xFC, 0xE0, 0x47, 0x11, 0x04, 0x01, 0x21, 0x10, 0x80, 0x1A, 0xCD, 0x95,
            0x00, 0xCD, 0x96, 0x00, 0x13, 0x7B, 0xFE, 0x34, 0x20, 0xF3, 0x11, 0xD8, 0x00, 0x06,
            0x08, 0x1A, 0x13, 0x22, 0x23, 0x05, 0x20, 0xF9, 0x3E, 0x19, 0xEA, 0x10, 0x99, 0x21,
            0x2F, 0x99, 0x0E, 0x0C, 0x3D, 0x28, 0x08, 0x32, 0x0D, 0x20, 0xF9, 0x2E, 0x0F, 0x18,
            0xF3, 0x67, 0x3E, 0x64, 0x57, 0xE0, 0x42, 0x3E, 0x91, 0xE0, 0x40, 0x04, 0x1E, 0x02,
            0x0E, 0x0C, 0xF0, 0x44, 0xFE, 0x90, 0x20, 0xFA, 0x0D, 0x20, 0xF7, 0x1D, 0x20, 0xF2,
            0x0E, 0x13, 0x24, 0x7C, 0x1E, 0x83, 0xFE, 0x62, 0x28, 0x06, 0x1E, 0xC1, 0xFE, 0x64,
            0x20, 0x06, 0x7B, 0xE2, 0x0C, 0x3E, 0x87, 0xE2, 0xF0, 0x42, 0x90, 0xE0, 0x42, 0x15,
            0x20, 0xD2, 0x05, 0x20, 0x4F, 0x16, 0x20, 0x18, 0xCB, 0x4F, 0x06, 0x04, 0xC5, 0xCB,
            0x11, 0x17, 0xC1, 0xCB, 0x11, 0x17, 0x05, 0x20, 0xF5, 0x22, 0x23, 0x22, 0x23, 0xC9,
            0xCE, 0xED, 0x66, 0x66, 0xCC, 0x0D, 0x00, 0x0B, 0x03, 0x73, 0x00, 0x83, 0x00, 0x0C,
            0x00, 0x0D, 0x00, 0x08, 0x11, 0x1F, 0x88, 0x89, 0x00, 0x0E, 0xDC, 0xCC, 0x6E, 0xE6,
            0xDD, 0xDD, 0xD9, 0x99, 0xBB, 0xBB, 0x67, 0x63, 0x6E, 0x0E, 0xEC, 0xCC, 0xDD, 0xDC,
            0x99, 0x9F, 0xBB, 0xB9, 0x33, 0x3E, 0x3C, 0x42, 0xB9, 0xA5, 0xB9, 0xA5, 0x42, 0x3C,
            0x21, 0x04, 0x01, 0x11, 0xA8, 0x00, 0x1A, 0x13, 0xBE, 0x20, 0xFE, 0x23, 0x7D, 0xFE,
            0x34, 0x20, 0xF5, 0x06, 0x19, 0x78, 0x86, 0x23, 0x05, 0x20, 0xFB, 0x86, 0x20, 0xFE,
            0x3E, 0x01, 0xE0, 0x50,
        ];
        assert(bootrom@ =~= boot_image());
        let r = Bus {
            bootrom,
            cartridge: Cartridge::new(rom),
            vram: vec![0u8; VRAM_SIZE],
            ram: vec![0u8; RAM_SIZE],
            spr_attr_table: vec![0u8; SPRATTRTABLE_SIZE],
            io_reg: vec![0u8; IOREG_SIZE],
            hram: vec![0u8; HRAM_SIZE],
            ie_reg: 0x0,
        };
        r
    }

    /// The byte of the boot firmware at `addr`.
    pub fn get_bootrom(&self, addr: u16) -> (r: u8)
        requires
            self.wf(),
            addr < BOOTROM_SIZE,
        ensures
            r == self.bootrom_view()[addr as int],
    {
        self.bootrom[addr as usize]
    }

    /// Read the byte at `addr`; every address of the 16-bit space is served.
    pub fn get_address(&self, addr: u16) -> (r: u8)
        requires
            self.wf(),
        ensures
            r == self.read_spec(addr),
    {
        if addr < VRAM_START {
            self.cartridge.read_rom(addr)
        } else if addr < CART_RAM_START {
            self.vram[(addr - VRAM_START) as usize]
        } else if addr < RAM_START {
            self.cartridge.read_ram(addr - CART_RAM_START)
        } else if addr < ECHO_START {
            self.ram[(addr - RAM_START) as usize]
        } else if addr < SPRATTRTABLE_START {
            self.ram[(addr - ECHO_START) as usize]
        } else if addr < PROHIBITED_START {
            self.spr_attr_table[(addr - SPRATTRTABLE_START) as usize]
        } else if addr < IOREG_START {
            0x00
        } else if addr < HRAM_START {
            self.io_reg[(addr - IOREG_START) as usize]
        } else if addr < IE_ADDR {
            self.hram[(addr - HRAM_START) as usize]
        } else {
            self.ie_reg
        }
    }

    /// Write `byte` to `addr`. Writes to the program image and to the
    /// prohibited region are dropped; a write to echo memory lands in working
    /// memory.
    pub fn write_byte(&mut self, addr: u16, byte: u8)
        requires
            old(self).wf(),
        ensures
            old(self).wrote(*final(self), addr, byte),
    {
        if addr < VRAM_START {
            self.cartridge.write_rom(addr, byte);
        } else if addr < CART_RAM_START {
            self.vram.set((addr - VRAM_START) as usize, byte);
        } else if addr < RAM_START {
            self.cartridge.write_ram(addr - CART_RAM_START, byte);
        } else if addr < ECHO_START {
            self.ram.set((addr - RAM_START) as usize, byte);
        } else if addr < SPRATTRTABLE_START {
            self.ram.set((addr - ECHO_START) as usize, byte);
        } else if addr < PROHIBITED_START {
            self.spr_attr_table.set((addr - SPRATTRTABLE_START) as usize, byte);
        } else if addr < IOREG_START {
        } else if addr < HRAM_START {
            self.io_reg.set((addr - IOREG_START) as usize, byte);
        } else if addr < IE_ADDR {
            self.hram.set((addr - HRAM_START) as usize, byte);
        } else {
            self.ie_reg = byte;
        }
    }
}

/// A byte written to working memory is read back through its echo address,
/// and a byte written through an echo address is read back from working memory.
pub proof fn lemma_echo_round_trip(bus: Bus, next: Bus, addr: u16, byte: u8)
    requires
        RAM_START <= addr <= 0xDDFF,
    ensures
        bus.wrote(next, addr, byte) ==> next.read_spec((addr + 0x2000) as u16) == byte,
        bus.wrote(next, (addr + 0x2000) as u16, byte) ==> next.read_spec(addr) == byte,
{
    let m = (addr + 0x2000) as u16;
    if bus.wrote(next, addr, byte) {
        assert(next.read_spec(m) == byte);
    }
    if bus.wrote(next, m, byte) {
        assert(next.read_spec(addr) == byte);
    }
}

/// The prohibited region reads as zero whatever was written, and a write to
/// it changes no address.
pub proof fn lemma_prohibited_region(bus: Bus, next: Bus, addr: u16, byte: u8)
    requires
        PROHIBITED_START <= addr < IOREG_START,
    ensures
        bus.read_spec(addr) == 0,
        bus.wrote(next, addr, byte) ==> forall|a: u16| #[trigger] next.read_spec(a) == bus.read_spec(a),
{
}

} // verus!
