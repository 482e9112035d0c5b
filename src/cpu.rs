//! The processor's state: the register file and its flags, and the bus
//! accesses that instructions are made of.
use vstd::prelude::*;
use crate::memory::Bus;
use crate::registers::{word_of, RegPair, Register};

verus! {

/// Failures of the register file and of the instruction stream.
#[derive(Clone, Copy, Debug, PartialEq, Eq, Structural)]
pub enum CpuError {
    /// A 16-bit register name where an 8-bit one was expected, or the reverse.
    InvalidRegister,
    /// An opcode outside the instruction set, with the address it was fetched from.
    IllegalOpcode { opcode: u8, addr: u16 },
}

/// The processor: the four register pairs, SP and PC, the bus it drives,
/// whether interrupts are enabled at the processor, and whether it waits in
/// `HALT`. Verified code keeps `wf`.
pub struct Cpu {
    pub af: RegPair,
    pub bc: RegPair,
    pub de: RegPair,
    pub hl: RegPair,
    pub sp: u16,
    pub pc: u16,
    pub bus: Bus,
    pub ime: bool,
    pub halted: bool,
}

/// `v` with its low nibble cleared, as the flag register stores it.
pub open spec fn flag_byte(v: u8) -> u8 {
    (v / 16 * 16) as u8
}

impl Cpu {
    pub open spec fn pair(self, r: Register) -> RegPair {
        match r {
            Register::A | Register::F | Register::AF => self.af,
            Register::B | Register::C | Register::BC => self.bc,
            Register::D | Register::E | Register::DE => self.de,
            Register::H | Register::L | Register::HL => self.hl,
        }
    }

    /// The value of an 8-bit register.
    pub open spec fn reg8(self, r: Register) -> u8 {
        if r.is_high() { self.pair(r).hi } else { self.pair(r).lo }
    }

    /// The value of a 16-bit register, or of the pair that holds an 8-bit one.
    pub open spec fn reg16(self, r: Register) -> u16 {
        self.pair(r).word()
    }

    pub open spec fn pc_spec(self) -> u16 {
        self.pc
    }

    pub open spec fn sp_spec(self) -> u16 {
        self.sp
    }

    pub open spec fn ime_spec(self) -> bool {
        self.ime
    }

    pub open spec fn halted_spec(self) -> bool {
        self.halted
    }

    pub open spec fn bus_spec(self) -> Bus {
        self.bus
    }

    pub open spec fn wf(self) -> bool {
        &&& self.reg8(Register::F) % 16 == 0
        &&& self.bus_spec().wf()
    }

    pub open spec fn flag_z(self) -> bool {
        self.reg8(Register::F) / 128 % 2 == 1
    }

    pub open spec fn flag_n(self) -> bool {
        self.reg8(Register::F) / 64 % 2 == 1
    }

    pub open spec fn flag_h(self) -> bool {
        self.reg8(Register::F) / 32 % 2 == 1
    }

    pub open spec fn flag_c(self) -> bool {
        self.reg8(Register::F) / 16 % 2 == 1
    }

    /// This processor with the pair holding `r` replaced.
    pub open spec fn with_pair(self, r: Register, p: RegPair) -> Cpu {
        match r {
            Register::A | Register::F | Register::AF => Cpu { af: p, ..self },
            Register::B | Register::C | Register::BC => Cpu { bc: p, ..self },
            Register::D | Register::E | Register::DE => Cpu { de: p, ..self },
            Register::H | Register::L | Register::HL => Cpu { hl: p, ..self },
        }
    }

    /// This processor after `v` is written to the 8-bit register `r`; the flag
    /// register keeps only the high nibble.
    pub open spec fn with_reg8(self, r: Register, v: u8) -> Cpu {
        let p = self.pair(r);
        let stored = if r is F { flag_byte(v) } else { v };
        self.with_pair(r, if r.is_high() { RegPair { hi: stored, ..p } } else { RegPair { lo: stored, ..p } })
    }

    /// This processor after `w` is written to the 16-bit register `r`.
    pub open spec fn with_reg16(self, r: Register, w: u16) -> Cpu {
        let p = RegPair::from_word(w);
        self.with_pair(r, if r is AF { RegPair { lo: flag_byte(p.lo), ..p } } else { p })
    }

    pub open spec fn with_pc(self, pc: u16) -> Cpu {
        Cpu { pc, ..self }
    }

    pub open spec fn with_sp(self, sp: u16) -> Cpu {
        Cpu { sp, ..self }
    }

    pub open spec fn with_ime(self, ime: bool) -> Cpu {
        Cpu { ime, ..self }
    }

    pub open spec fn with_halted(self, halted: bool) -> Cpu {
        Cpu { halted, ..self }
    }

    pub open spec fn with_bus(self, bus: Bus) -> Cpu {
        Cpu { bus, ..self }
    }

    /// A processor at power-on over `bus`: registers zeroed, interrupts off.
    pub fn with_bus_attached(bus: Bus) -> (r: Cpu)
        requires
            bus.wf(),
        ensures
            r.wf(),
            r.bus_spec() == bus,
            forall|q: Register| #[trigger] r.reg16(q) == 0,
            r.pc_spec() == 0,
            r.sp_spec() == 0,
            !r.ime_spec(),
            !r.halted_spec(),
    {
        Cpu {
            af: RegPair::from_u16(0),
            bc: RegPair::from_u16(0),
            de: RegPair::from_u16(0),
            hl: RegPair::from_u16(0),
            sp: 0x0000,
            pc: 0x0000,
            bus,
            ime: false,
            halted: false,
        }
    }

    /// A processor at power-on over a bus with an empty program image.
    pub fn new() -> (r: Cpu)
        ensures
            r.wf(),
            forall|q: Register| #[trigger] r.reg16(q) == 0,
            r.pc_spec() == 0,
            r.sp_spec() == 0,
            !r.ime_spec(),
            !r.halted_spec(),
            forall|a: u16| 0x8000 <= a ==> #[trigger] r.bus_spec().read_spec(a) == 0,
    {
        Cpu::with_bus_attached(Bus::new(Vec::new()))
    }

    pub fn get_z(&self) -> (r: bool)
        ensures
            r == self.flag_z(),
    {
        self.af.lo / 128 % 2 == 1
    }

    pub fn get_n(&self) -> (r: bool)
        ensures
            r == self.flag_n(),
    {
        self.af.lo / 64 % 2 == 1
    }

    pub fn get_h(&self) -> (r: bool)
        ensures
            r == self.flag_h(),
    {
        self.af.lo / 32 % 2 == 1
    }

    pub fn get_c(&self) -> (r: bool)
        ensures
            r == self.flag_c(),
    {
        self.af.lo / 16 % 2 == 1
    }

    /// Read an 8-bit register; a pair name is refused.
    pub fn get_regu8(&self, reg: Register) -> (r: Result<u8, CpuError>)
        ensures
            reg.is_u8() ==> r == Ok::<u8, CpuError>(self.reg8(reg)),
            reg.is_u16() ==> r == Err::<u8, CpuError>(CpuError::InvalidRegister),
    {
        match reg {
            Register::A => Ok(self.af.hi),
            Register::F => Ok(self.af.lo),
            Register::B => Ok(self.bc.hi),
            Register::C => Ok(self.bc.lo),
            Register::D => Ok(self.de.hi),
            Register::E => Ok(self.de.lo),
            Register::H => Ok(self.hl.hi),
            Register::L => Ok(self.hl.lo),
            _ => Err(CpuError::InvalidRegister),
        }
    }

    /// Write an 8-bit register (the flag register keeps its high nibble only);
    /// a pair name is refused and nothing changes.
    pub fn set_regu8(&mut self, reg: Register, val: u8) -> (r: Result<(), CpuError>)
        requires
            old(self).wf(),
        ensures
            final(self).wf(),
            reg.is_u8() ==> r is Ok && *final(self) == old(self).with_reg8(reg, val),
            reg.is_u16() ==> r == Err::<(), CpuError>(CpuError::InvalidRegister) && *final(self) == *old(self),
    {
        match reg {
            Register::A => self.af.hi = val,
            Register::F => self.af.lo = val / 16 * 16,
            Register::B => self.bc.hi = val,
            Register::C => self.bc.lo = val,
            Register::D => self.de.hi = val,
            Register::E => self.de.lo = val,
            Register::H => self.hl.hi = val,
            Register::L => self.hl.lo = val,
            _ => return Err(CpuError::InvalidRegister),
        }
        Ok(())
    }

    /// Read a 16-bit register pair; an 8-bit name is refused.
    pub fn get_regu16(&self, reg: Register) -> (r: Result<u16, CpuError>)
        ensures
            reg.is_u16() ==> r == Ok::<u16, CpuError>(self.reg16(reg)),
            reg.is_u8() ==> r == Err::<u16, CpuError>(CpuError::InvalidRegister),
    {
        match reg {
            Register::AF => Ok(self.af.get()),
            Register::BC => Ok(self.bc.get()),
            Register::DE => Ok(self.de.get()),
            Register::HL => Ok(self.hl.get()),
            _ => Err(CpuError::InvalidRegister),
        }
    }

    /// Write a 16-bit register pair (the low nibble of F stays clear); an
    /// 8-bit name is refused and nothing changes.
    pub fn set_regu16(&mut self, reg: Register, val: u16) -> (r: Result<(), CpuError>)
        requires
            old(self).wf(),
        ensures
            final(self).wf(),
            reg.is_u16() ==> r is Ok && *final(self) == old(self).with_reg16(reg, val),
            reg.is_u8() ==> r == Err::<(), CpuError>(CpuError::InvalidRegister) && *final(self) == *old(self),
    {
        let p = RegPair::from_u16(val);
        match reg {
            Register::AF => self.af = RegPair { hi: p.hi, lo: p.lo / 16 * 16 },
            Register::BC => self.bc = p,
            Register::DE => self.de = p,
            Register::HL => self.hl = p,
            _ => return Err(CpuError::InvalidRegister),
        }
        Ok(())
    }

    /// Write all four flags at once.
    pub fn set_flags(&mut self, z: bool, n: bool, h: bool, c: bool)
        requires
            old(self).wf(),
        ensures
            final(self).wf(),
            *final(self) == old(self).with_reg8(Register::F, flags_value(z, n, h, c)),
            final(self).flag_z() == z,
            final(self).flag_n() == n,
            final(self).flag_h() == h,
            final(self).flag_c() == c,
    {
        let f: u8 = (if z { 128u8 } else { 0 }) + (if n { 64u8 } else { 0 }) + (if h { 32u8 } else { 0 }) + (
        if c { 16u8 } else { 0 });
        self.af.lo = f;
    }

    /// Set or clear the zero flag alone.
    pub fn set_z(&mut self, v: bool)
        requires
            old(self).wf(),
        ensures
            final(self).wf(),
            *final(self) == old(self).with_reg8(
                Register::F,
                flags_value(v, old(self).flag_n(), old(self).flag_h(), old(self).flag_c()),
            ),
    {
        let (n, h, c) = (self.get_n(), self.get_h(), self.get_c());
        self.set_flags(v, n, h, c);
    }

    /// Set or clear the subtract flag alone.
    pub fn set_n(&mut self, v: bool)
        requires
            old(self).wf(),
        ensures
            final(self).wf(),
            *final(self) == old(self).with_reg8(
                Register::F,
                flags_value(old(self).flag_z(), v, old(self).flag_h(), old(self).flag_c()),
            ),
    {
        let (z, h, c) = (self.get_z(), self.get_h(), self.get_c());
        self.set_flags(z, v, h, c);
    }

    /// Set or clear the half-carry flag alone.
    pub fn set_h(&mut self, v: bool)
        requires
            old(self).wf(),
        ensures
            final(self).wf(),
            *final(self) == old(self).with_reg8(
                Register::F,
                flags_value(old(self).flag_z(), old(self).flag_n(), v, old(self).flag_c()),
            ),
    {
        let (z, n, c) = (self.get_z(), self.get_n(), self.get_c());
        self.set_flags(z, n, v, c);
    }

    /// Set or clear the carry flag alone.
    pub fn set_c(&mut self, v: bool)
        requires
            old(self).wf(),
        ensures
            final(self).wf(),
            *final(self) == old(self).with_reg8(
                Register::F,
                flags_value(old(self).flag_z(), old(self).flag_n(), old(self).flag_h(), v),
            ),
    {
        let (z, n, h) = (self.get_z(), self.get_n(), self.get_h());
        self.set_flags(z, n, h, v);
    }
}

/// The flag register holding the four given flags.
pub open spec fn flags_value(z: bool, n: bool, h: bool, c: bool) -> u8 {
    ((if z { 128int } else { 0 }) + (if n { 64int } else { 0 }) + (if h { 32int } else { 0 }) + (if c { 16int } else { 0 })) as u8
}

impl Cpu {
    /// The program counter.
    pub fn pc(&self) -> (r: u16)
        ensures
            r == self.pc_spec(),
    {
        self.pc
    }

    pub fn set_pc(&mut self, pc: u16)
        ensures
            *final(self) == old(self).with_pc(pc),
    {
        self.pc = pc;
    }

    /// The stack pointer.
    pub fn sp(&self) -> (r: u16)
        ensures
            r == self.sp_spec(),
    {
        self.sp
    }

    pub fn set_sp(&mut self, sp: u16)
        ensures
            *final(self) == old(self).with_sp(sp),
    {
        self.sp = sp;
    }

    /// Whether interrupts are enabled at the processor.
    pub fn ime(&self) -> (r: bool)
        ensures
            r == self.ime_spec(),
    {
        self.ime
    }

    pub fn set_ime(&mut self, ime: bool)
        ensures
            *final(self) == old(self).with_ime(ime),
    {
        self.ime = ime;
    }

    /// Whether the processor waits in `HALT`.
    pub fn halted(&self) -> (r: bool)
        ensures
            r == self.halted_spec(),
    {
        self.halted
    }

    pub fn bus(&self) -> (r: &Bus)
        ensures
            *r == self.bus_spec(),
    {
        &self.bus
    }

    /// Read the byte at `addr` through the bus.
    pub fn read_byte(&self, addr: u16) -> (r: u8)
        requires
            self.wf(),
        ensures
            r == self.bus_spec().read_spec(addr),
    {
        self.bus.get_address(addr)
    }

    /// Write `byte` to `addr` through the bus.
    pub fn write_byte(&mut self, addr: u16, byte: u8)
        requires
            old(self).wf(),
        ensures
            final(self).wf(),
            old(self).bus_spec().wrote(final(self).bus_spec(), addr, byte),
            *final(self) == old(self).with_bus(final(self).bus_spec()),
    {
        self.bus.write_byte(addr, byte);
    }

    /// The operand named by a 3-bit field of an opcode: B, C, D, E, H, L, the
    /// byte at HL, A.
    pub open spec fn operand(self, idx: u8) -> u8 {
        if idx == 6 {
            self.bus_spec().read_spec(self.reg16(Register::HL))
        } else {
            self.reg8(r8_name(idx))
        }
    }

    /// `next` is this processor after `v` is written to operand `idx`.
    pub open spec fn operand_written(self, next: Cpu, idx: u8, v: u8) -> bool {
        if idx == 6 {
            &&& self.bus_spec().wrote(next.bus_spec(), self.reg16(Register::HL), v)
            &&& next == self.with_bus(next.bus_spec())
        } else {
            next == self.with_reg8(r8_name(idx), v)
        }
    }

    pub(crate) fn read_operand(&self, idx: u8) -> (r: u8)
        requires
            self.wf(),
            idx < 8,
        ensures
            r == self.operand(idx),
    {
        match idx {
            0 => self.bc.hi,
            1 => self.bc.lo,
            2 => self.de.hi,
            3 => self.de.lo,
            4 => self.hl.hi,
            5 => self.hl.lo,
            6 => self.bus.get_address(self.hl.get()),
            _ => self.af.hi,
        }
    }

    pub(crate) fn write_operand(&mut self, idx: u8, v: u8)
        requires
            old(self).wf(),
            idx < 8,
        ensures
            final(self).wf(),
            old(self).operand_written(*final(self), idx, v),
    {
        match idx {
            0 => self.bc.hi = v,
            1 => self.bc.lo = v,
            2 => self.de.hi = v,
            3 => self.de.lo = v,
            4 => self.hl.hi = v,
            5 => self.hl.lo = v,
            6 => {
                let hl = self.hl.get();
                self.bus.write_byte(hl, v);
            },
            _ => self.af.hi = v,
        }
    }

    /// Read the byte at PC and step PC past it.
    pub(crate) fn fetch_byte(&mut self) -> (r: u8)
        requires
            old(self).wf(),
        ensures
            final(self).wf(),
            r == old(self).bus_spec().read_spec(old(self).pc_spec()),
            *final(self) == old(self).with_pc(next_addr(old(self).pc_spec(), 1)),
    {
        let b = self.bus.get_address(self.pc);
        self.pc = self.pc.wrapping_add(1);
        b
    }

    /// The little-endian word at `addr`.
    pub open spec fn word_at(self, addr: u16) -> u16 {
        word_of(self.bus_spec().read_spec(next_addr(addr, 1)), self.bus_spec().read_spec(addr))
    }

    /// Read the little-endian word at PC and step PC past it.
    pub(crate) fn fetch_word(&mut self) -> (r: u16)
        requires
            old(self).wf(),
        ensures
            final(self).wf(),
            r == old(self).word_at(old(self).pc_spec()),
            *final(self) == old(self).with_pc(next_addr(old(self).pc_spec(), 2)),
    {
        let lo = self.fetch_byte();
        let hi = self.fetch_byte();
        (hi as u16) * 256 + lo as u16
    }

    /// `next` is this processor after `w` is pushed: its high byte at SP - 1,
    /// then its low byte at SP - 2, and SP lowered by two.
    pub open spec fn pushed(self, next: Cpu, w: u16) -> bool {
        let sp = self.sp_spec();
        exists|mid: Bus|
            {
                &&& #[trigger] self.bus_spec().wrote(mid, prev_addr(sp, 1), (w / 256) as u8)
                &&& mid.wrote(next.bus_spec(), prev_addr(sp, 2), (w % 256) as u8)
                &&& next == self.with_sp(prev_addr(sp, 2)).with_bus(next.bus_spec())
            }
    }

    pub(crate) fn push_word(&mut self, w: u16)
        requires
            old(self).wf(),
        ensures
            final(self).wf(),
            old(self).pushed(*final(self), w),
    {
        let sp1 = self.sp.wrapping_sub(1);
        self.bus.write_byte(sp1, (w / 256) as u8);
        let ghost mid = self.bus;
        let sp2 = self.sp.wrapping_sub(2);
        self.bus.write_byte(sp2, (w % 256) as u8);
        self.sp = sp2;
        assert(old(self).bus_spec().wrote(mid, prev_addr(old(self).sp_spec(), 1), (w / 256) as u8));
    }

    /// Pop the word at SP and raise SP by two.
    pub(crate) fn pop_word(&mut self) -> (r: u16)
        requires
            old(self).wf(),
        ensures
            final(self).wf(),
            r == old(self).word_at(old(self).sp_spec()),
            *final(self) == old(self).with_sp(next_addr(old(self).sp_spec(), 2)),
    {
        let lo = self.bus.get_address(self.sp);
        let hi = self.bus.get_address(self.sp.wrapping_add(1));
        self.sp = self.sp.wrapping_add(2);
        (hi as u16) * 256 + lo as u16
    }
}

/// The register that a 3-bit operand field names (6, the byte at HL, aside).
pub open spec fn r8_name(idx: u8) -> Register {
    if idx == 0 {
        Register::B
    } else if idx == 1 {
        Register::C
    } else if idx == 2 {
        Register::D
    } else if idx == 3 {
        Register::E
    } else if idx == 4 {
        Register::H
    } else if idx == 5 {
        Register::L
    } else {
        Register::A
    }
}

/// `addr + k`, wrapping around the 16-bit space.
pub open spec fn next_addr(addr: u16, k: int) -> u16 {
    ((addr + k) % 65536) as u16
}

/// `addr - k`, wrapping around the 16-bit space.
pub open spec fn prev_addr(addr: u16, k: int) -> u16 {
    ((addr - k + 65536) % 65536) as u16
}

/// The flag register is determined by its four flags: rewriting it from its
/// own flags changes nothing, so a setter that keeps three flags touches only
/// the fourth one's bit.
pub proof fn lemma_flags_roundtrip(cpu: Cpu)
    requires
        cpu.wf(),
    ensures
        flags_value(cpu.flag_z(), cpu.flag_n(), cpu.flag_h(), cpu.flag_c()) == cpu.reg8(Register::F),
{
}

/// Writing one half of a register pair sets that byte of the pair to the
/// value written (its high nibble, for the flag register) and leaves the other
/// byte of the pair, and every other pair, unchanged.
pub proof fn lemma_half_write(cpu: Cpu, r: Register, v: u8)
    requires
        r.is_u8(),
    ensures
        ({
            let next = cpu.with_reg8(r, v);
            let p = r.pair_of();
            let stored = if r is F { flag_byte(v) } else { v };
            &&& r.is_high() ==> next.reg16(p) / 256 == stored && next.reg16(p) % 256 == cpu.reg16(p) % 256
            &&& !r.is_high() ==> next.reg16(p) % 256 == stored && next.reg16(p) / 256 == cpu.reg16(p) / 256
            &&& !(r is F) ==> stored == v
            &&& forall|q: Register| q.is_u16() && q != p ==> #[trigger] next.reg16(q) == cpu.reg16(q)
        }),
{
}

/// Whatever is written to the flag register, alone or through AF, its low
/// four bits read back as zero.
pub proof fn lemma_flag_low_nibble(cpu: Cpu, v: u8, w: u16)
    ensures
        cpu.with_reg8(Register::F, v).reg8(Register::F) & 0x0F == 0,
        cpu.with_reg16(Register::AF, w).reg8(Register::F) & 0x0F == 0,
{
    let x = (w % 256) as u8;
    assert((v / 16 * 16) as u8 & 0x0F == 0) by (bit_vector);
    assert((x / 16 * 16) as u8 & 0x0F == 0) by (bit_vector);
}

} // verus!
