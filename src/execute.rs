//! Decoding and executing instructions: what each opcode does to the
//! processor and the bus, and the step that runs one.
use vstd::prelude::*;
use crate::alu::{
    add16, add16_spec, add8, add_spec, and8, and_spec, bit_set_spec, daa, daa_spec, dec8, dec_spec,
    inc8, inc_spec, or8, or_spec, reset_bit, set_bit, shift8, shift_spec, sp_offset,
    sp_offset_flags, sub8, sub_spec, test_bit, xor8, xor_spec, AluOut, ShiftOp,
};
use crate::cpu::{flags_value, next_addr, prev_addr, Cpu, CpuError};
use crate::interrupt::IF_ADDR;
use crate::memory::{Bus, IE_ADDR};
use crate::registers::{RegPair, Register};

verus! {

/// The result and flags of the arithmetic-logic operation that a 3-bit field
/// selects: ADD, ADC, SUB, SBC, AND, XOR, OR, CP.
pub open spec fn alu_spec(kind: u8, a: u8, b: u8, carry: bool) -> AluOut {
    if kind == 0 {
        add_spec(a, b, false)
    } else if kind == 1 {
        add_spec(a, b, carry)
    } else if kind == 2 {
        sub_spec(a, b, false)
    } else if kind == 3 {
        sub_spec(a, b, carry)
    } else if kind == 4 {
        and_spec(a, b)
    } else if kind == 5 {
        xor_spec(a, b)
    } else if kind == 6 {
        or_spec(a, b)
    } else {
        sub_spec(a, b, false)
    }
}

/// The rotate or shift that a 3-bit field of the extended table selects.
pub open spec fn shift_kind(k: u8) -> ShiftOp {
    if k == 0 {
        ShiftOp::Rlc
    } else if k == 1 {
        ShiftOp::Rrc
    } else if k == 2 {
        ShiftOp::Rl
    } else if k == 3 {
        ShiftOp::Rr
    } else if k == 4 {
        ShiftOp::Sla
    } else if k == 5 {
        ShiftOp::Sra
    } else if k == 6 {
        ShiftOp::Swap
    } else {
        ShiftOp::Srl
    }
}

/// The pair that a 2-bit field names: BC, DE, HL, and SP or AF as the fourth.
pub open spec fn rr_name(idx: u8) -> Register {
    if idx == 0 {
        Register::BC
    } else if idx == 1 {
        Register::DE
    } else if idx == 2 {
        Register::HL
    } else {
        Register::AF
    }
}

/// The target of a relative jump by the signed offset `e` from `pc`.
pub open spec fn jr_target(pc: u16, e: u8) -> u16 {
    if e < 128 { next_addr(pc, e as int) } else { prev_addr(pc, 256 - e) }
}

/// Whether `op` is an opcode of the instruction set (0xCB selects the
/// extended table, whose 256 opcodes are all defined).
pub open spec fn supported(op: u8) -> bool {
    !(op == 0xD3 || op == 0xDB || op == 0xDD || op == 0xE3 || op == 0xE4 || op == 0xEB || op == 0xEC
        || op == 0xED || op == 0xF4 || op == 0xFC || op == 0xFD)
}

impl Cpu {
    pub open spec fn with_flags(self, o: AluOut) -> Cpu {
        self.with_reg8(Register::F, flags_value(o.z, o.n, o.h, o.c))
    }

    /// The value of the pair that a 2-bit field names, SP as the fourth.
    pub open spec fn rr_value(self, idx: u8) -> u16 {
        if idx == 3 { self.sp_spec() } else { self.reg16(rr_name(idx)) }
    }

    pub open spec fn with_rr(self, idx: u8, w: u16) -> Cpu {
        if idx == 3 { self.with_sp(w) } else { self.with_reg16(rr_name(idx), w) }
    }

    /// Whether the branch condition that a 2-bit field names holds: NZ, Z, NC, C.
    pub open spec fn cond_spec(self, cc: u8) -> bool {
        if cc == 0 {
            !self.flag_z()
        } else if cc == 1 {
            self.flag_z()
        } else if cc == 2 {
            !self.flag_c()
        } else {
            self.flag_c()
        }
    }

    pub open spec fn imm8(self) -> u8 {
        self.bus_spec().read_spec(self.pc_spec())
    }

    pub open spec fn imm16(self) -> u16 {
        self.word_at(self.pc_spec())
    }

    pub open spec fn skip(self, k: int) -> Cpu {
        self.with_pc(next_addr(self.pc_spec(), k))
    }

    /// `next` is this processor after the arithmetic-logic operation `kind`
    /// on A and `b`; CP keeps A.
    pub open spec fn alu_post(self, next: Cpu, kind: u8, b: u8) -> bool {
        let o = alu_spec(kind, self.reg8(Register::A), b, self.flag_c());
        if kind == 7 {
            next == self.with_flags(o)
        } else {
            next == self.with_flags(o).with_reg8(Register::A, o.value)
        }
    }

    /// `next` is this processor after a call of `target`: the address after
    /// the call pushed and PC set to `target`.
    pub open spec fn called(self, next: Cpu, target: u16) -> bool {
        exists|s: Cpu| #[trigger] self.pushed(s, self.pc_spec()) && next == s.with_pc(target)
    }

    /// `next` is this processor after a return: PC popped from the stack.
    pub open spec fn returned(self, next: Cpu) -> bool {
        next == self.with_sp(next_addr(self.sp_spec(), 2)).with_pc(self.word_at(self.sp_spec()))
    }

    /// `next` is this processor after the extended instruction `cb`, whose
    /// operand bytes start at PC; `cycles` is its cost.
    pub open spec fn cb_post(self, next: Cpu, cb: u8, cycles: u32) -> bool {
        let idx = cb % 8;
        let v = self.operand(idx);
        let n = (cb / 8) % 8;
        let mem = idx == 6;
        if cb < 0x40 {
            let o = shift_spec(shift_kind(n), v, self.flag_c());
            &&& self.with_flags(o).operand_written(next, idx, o.value)
            &&& cycles == if mem { 16u32 } else { 8 }
        } else if cb < 0x80 {
            let o = AluOut { value: v, z: !bit_set_spec(v, n), n: false, h: true, c: self.flag_c() };
            &&& next == self.with_flags(o)
            &&& cycles == if mem { 12u32 } else { 8 }
        } else if cb < 0xC0 {
            &&& self.operand_written(next, idx, v & !(1u8 << n))
            &&& cycles == if mem { 16u32 } else { 8 }
        } else {
            &&& self.operand_written(next, idx, v | (1u8 << n))
            &&& cycles == if mem { 16u32 } else { 8 }
        }
    }
}

impl Cpu {
    /// `next` is this processor, PC past the opcode `op` (below 0x40), after
    /// the rest of that instruction; `cycles` is its cost.
    #[verifier::opaque]
    pub open spec fn block0_post(self, next: Cpu, op: u8, cycles: u32) -> bool {
        let lo3 = (op % 8) as u8;
        let mid3 = ((op / 8) % 8) as u8;
        let rr = ((op / 16) % 4) as u8;
        let a = self.reg8(Register::A);
        let hl = self.reg16(Register::HL);
        if op == 0x00 {
            next == self && cycles == 4
        } else if op == 0x10 {
            next == self.skip(1) && cycles == 4
        } else if lo3 == 6 {
            self.skip(1).operand_written(next, mid3, self.imm8()) && cycles == if mid3 == 6 { 12u32 } else { 8 }
        } else if lo3 == 4 || lo3 == 5 {
            let v = self.operand(mid3);
            let o = if lo3 == 4 { inc_spec(v, self.flag_c()) } else { dec_spec(v, self.flag_c()) };
            self.with_flags(o).operand_written(next, mid3, o.value) && cycles == if mid3 == 6 { 12u32 } else { 4 }
        } else if op % 16 == 1 {
            next == self.skip(2).with_rr(rr, self.imm16()) && cycles == 12
        } else if op % 16 == 3 {
            next == self.with_rr(rr, next_addr(self.rr_value(rr), 1)) && cycles == 8
        } else if op % 16 == 0xB {
            next == self.with_rr(rr, prev_addr(self.rr_value(rr), 1)) && cycles == 8
        } else if op % 16 == 9 {
            let (v, h, c) = add16_spec(hl, self.rr_value(rr));
            &&& next == self.with_flags(AluOut { value: 0, z: self.flag_z(), n: false, h, c }).with_reg16(Register::HL, v)
            &&& cycles == 8
        } else if op == 0x02 || op == 0x12 {
            &&& self.bus_spec().wrote(next.bus_spec(), self.reg16(rr_name(rr)), a)
            &&& next == self.with_bus(next.bus_spec())
            &&& cycles == 8
        } else if op == 0x0A || op == 0x1A {
            next == self.with_reg8(Register::A, self.bus_spec().read_spec(self.reg16(rr_name(rr)))) && cycles == 8
        } else if op == 0x22 || op == 0x32 {
            let hl2 = if op == 0x22 { next_addr(hl, 1) } else { prev_addr(hl, 1) };
            &&& self.bus_spec().wrote(next.bus_spec(), hl, a)
            &&& next == self.with_reg16(Register::HL, hl2).with_bus(next.bus_spec())
            &&& cycles == 8
        } else if op == 0x2A || op == 0x3A {
            let hl2 = if op == 0x2A { next_addr(hl, 1) } else { prev_addr(hl, 1) };
            &&& next == self.with_reg16(Register::HL, hl2).with_reg8(Register::A, self.bus_spec().read_spec(hl))
            &&& cycles == 8
        } else if op == 0x07 || op == 0x0F || op == 0x17 || op == 0x1F {
            let o = shift_spec(shift_kind(mid3), a, self.flag_c());
            next == self.with_flags(AluOut { z: false, ..o }).with_reg8(Register::A, o.value) && cycles == 4
        } else if op == 0x2F {
            let o = AluOut { value: !a, z: self.flag_z(), n: true, h: true, c: self.flag_c() };
            next == self.with_flags(o).with_reg8(Register::A, !a) && cycles == 4
        } else if op == 0x37 || op == 0x3F {
            let c = if op == 0x37 { true } else { !self.flag_c() };
            next == self.with_flags(AluOut { value: 0, z: self.flag_z(), n: false, h: false, c }) && cycles == 4
        } else if op == 0x18 {
            next == self.with_pc(jr_target(next_addr(self.pc_spec(), 1), self.imm8())) && cycles == 12
        } else if op == 0x20 || op == 0x28 || op == 0x30 || op == 0x38 {
            if self.cond_spec(mid3 % 4) {
                next == self.with_pc(jr_target(next_addr(self.pc_spec(), 1), self.imm8())) && cycles == 12
            } else {
                next == self.skip(1) && cycles == 8
            }
        } else if op == 0x08 {
            let w = self.imm16();
            let sp = self.sp_spec();
            &&& exists|mid: Bus|
                {
                    &&& #[trigger] self.bus_spec().wrote(mid, w, (sp % 256) as u8)
                    &&& mid.wrote(next.bus_spec(), next_addr(w, 1), (sp / 256) as u8)
                }
            &&& next == self.skip(2).with_bus(next.bus_spec())
            &&& cycles == 20
        } else if op == 0x27 {
            let o = daa_spec(a, self.flag_n(), self.flag_h(), self.flag_c());
            next == self.with_flags(o).with_reg8(Register::A, o.value) && cycles == 4
        } else {
            false
        }
    }

    /// As `block0_post`, for the loads between registers (0x40 to 0x7F).
    #[verifier::opaque]
    pub open spec fn block1_post(self, next: Cpu, op: u8, cycles: u32) -> bool {
        let lo3 = (op % 8) as u8;
        let mid3 = ((op / 8) % 8) as u8;
        if op == 0x76 {
            next == self.with_halted(true) && cycles == 4
        } else {
            &&& self.operand_written(next, mid3, self.operand(lo3))
            &&& cycles == if mid3 == 6 || lo3 == 6 { 8u32 } else { 4 }
        }
    }

    /// As `block0_post`, for arithmetic and logic on A (0x80 to 0xBF).
    #[verifier::opaque]
    pub open spec fn block2_post(self, next: Cpu, op: u8, cycles: u32) -> bool {
        let lo3 = (op % 8) as u8;
        let mid3 = ((op / 8) % 8) as u8;
        self.alu_post(next, mid3, self.operand(lo3)) && cycles == if lo3 == 6 { 8u32 } else { 4 }
    }

    /// As `block0_post`, for the opcodes from 0xC0 up.
    #[verifier::opaque]
    pub open spec fn block3_post(self, next: Cpu, op: u8, cycles: u32) -> bool {
        let lo3 = (op % 8) as u8;
        let mid3 = ((op / 8) % 8) as u8;
        let rr = ((op / 16) % 4) as u8;
        let a = self.reg8(Register::A);
        let cc = mid3 % 4;
        if op == 0xF3 || op == 0xFB {
            next == self.with_ime(op == 0xFB) && cycles == 4
        } else if op == 0xC3 {
            next == self.with_pc(self.imm16()) && cycles == 16
        } else if op == 0xE9 {
            next == self.with_pc(self.reg16(Register::HL)) && cycles == 4
        } else if op == 0xF9 {
            next == self.with_sp(self.reg16(Register::HL)) && cycles == 8
        } else if op == 0xE8 || op == 0xF8 {
            let sp = self.sp_spec();
            let e = self.imm8();
            let s = self.skip(1).with_flags(sp_offset_flags(sp, e));
            &&& next == if op == 0xE8 {
                s.with_sp(jr_target(sp, e))
            } else {
                s.with_reg16(Register::HL, jr_target(sp, e))
            }
            &&& cycles == if op == 0xE8 { 16u32 } else { 12 }
        } else if op == 0xCD {
            self.skip(2).called(next, self.imm16()) && cycles == 24
        } else if op == 0xC9 {
            self.returned(next) && cycles == 16
        } else if op == 0xD9 {
            self.with_ime(true).returned(next) && cycles == 16
        } else if op == 0xE0 || op == 0xE2 {
            let addr = (0xFF00 + if op == 0xE0 { self.imm8() } else { self.reg8(Register::C) }) as u16;
            let s = if op == 0xE0 { self.skip(1) } else { self };
            &&& self.bus_spec().wrote(next.bus_spec(), addr, a)
            &&& next == s.with_bus(next.bus_spec())
            &&& cycles == if op == 0xE0 { 12u32 } else { 8 }
        } else if op == 0xF0 || op == 0xF2 {
            let addr = (0xFF00 + if op == 0xF0 { self.imm8() } else { self.reg8(Register::C) }) as u16;
            let s = if op == 0xF0 { self.skip(1) } else { self };
            &&& next == s.with_reg8(Register::A, self.bus_spec().read_spec(addr))
            &&& cycles == if op == 0xF0 { 12u32 } else { 8 }
        } else if op == 0xEA {
            &&& self.bus_spec().wrote(next.bus_spec(), self.imm16(), a)
            &&& next == self.skip(2).with_bus(next.bus_spec())
            &&& cycles == 16
        } else if op == 0xFA {
            next == self.skip(2).with_reg8(Register::A, self.bus_spec().read_spec(self.imm16())) && cycles == 16
        } else if op == 0xCB {
            self.skip(1).cb_post(next, self.imm8(), cycles)
        } else if lo3 == 6 {
            self.skip(1).alu_post(next, mid3, self.imm8()) && cycles == 8
        } else if lo3 == 7 {
            self.called(next, (op - 0xC7) as u16) && cycles == 16
        } else if op % 16 == 5 {
            self.pushed(next, self.reg16(rr_name(rr))) && cycles == 16
        } else if op % 16 == 1 {
            let w = self.word_at(self.sp_spec());
            next == self.with_sp(next_addr(self.sp_spec(), 2)).with_reg16(rr_name(rr), w) && cycles == 12
        } else if op < 0xE0 && lo3 == 2 {
            if self.cond_spec(cc) {
                next == self.with_pc(self.imm16()) && cycles == 16
            } else {
                next == self.skip(2) && cycles == 12
            }
        } else if op < 0xE0 && lo3 == 4 {
            if self.cond_spec(cc) {
                self.skip(2).called(next, self.imm16()) && cycles == 24
            } else {
                next == self.skip(2) && cycles == 12
            }
        } else if op < 0xE0 && lo3 == 0 {
            if self.cond_spec(cc) {
                self.returned(next) && cycles == 20
            } else {
                next == self && cycles == 8
            }
        } else {
            false
        }
    }

    /// `next` is this processor, PC past the opcode `op`, after the rest of
    /// that instruction; `cycles` is its cost.
    pub open spec fn exec_post(self, next: Cpu, op: u8, cycles: u32) -> bool {
        if op < 0x40 {
            self.block0_post(next, op, cycles)
        } else if op < 0x80 {
            self.block1_post(next, op, cycles)
        } else if op < 0xC0 {
            self.block2_post(next, op, cycles)
        } else {
            self.block3_post(next, op, cycles)
        }
    }

    /// `next` and `r` are this processor and the result after one step: a
    /// halted processor with nothing pending waits four cycles; a pending
    /// interrupt wakes it; with interrupts enabled at the processor the lowest
    /// pending one is serviced in twenty cycles; otherwise the instruction at
    /// PC is executed, or, if its opcode is outside the instruction set,
    /// refused with nothing else changed.
    pub open spec fn step_post(self, next: Cpu, r: Result<u32, CpuError>) -> bool {
        let pending = self.pending_spec();
        if self.halted_spec() && pending == 0 {
            next == self && r == Ok::<u32, CpuError>(4)
        } else {
            let s = self.with_halted(false);
            if s.ime_spec() && pending != 0 {
                s.dispatched(next) && r == Ok::<u32, CpuError>(20)
            } else if supported(s.imm8()) {
                r is Ok && s.skip(1).exec_post(next, s.imm8(), r->Ok_0)
            } else {
                next == s && r == Err::<u32, CpuError>(
                    CpuError::IllegalOpcode { opcode: s.imm8(), addr: s.pc_spec() },
                )
            }
        }
    }
}

/// The rotate or shift that a 3-bit field of the extended table selects.
fn shift_kind_of(k: u8) -> (r: ShiftOp)
    ensures
        r == shift_kind(k),
{
    if k == 0 {
        ShiftOp::Rlc
    } else if k == 1 {
        ShiftOp::Rrc
    } else if k == 2 {
        ShiftOp::Rl
    } else if k == 3 {
        ShiftOp::Rr
    } else if k == 4 {
        ShiftOp::Sla
    } else if k == 5 {
        ShiftOp::Sra
    } else if k == 6 {
        ShiftOp::Swap
    } else {
        ShiftOp::Srl
    }
}

/// Whether `op` is an opcode of the instruction set.
pub fn is_supported(op: u8) -> (r: bool)
    ensures
        r == supported(op),
{
    !(op == 0xD3 || op == 0xDB || op == 0xDD || op == 0xE3 || op == 0xE4 || op == 0xEB || op == 0xEC
        || op == 0xED || op == 0xF4 || op == 0xFC || op == 0xFD)
}

/// `x + 1`, wrapping around the 16-bit space.
fn wrap_inc(x: u16) -> (r: u16)
    ensures
        r == next_addr(x, 1),
{
    if x == 0xFFFF { 0 } else { x + 1 }
}

/// `x - 1`, wrapping around the 16-bit space.
fn wrap_dec(x: u16) -> (r: u16)
    ensures
        r == prev_addr(x, 1),
{
    if x == 0 { 0xFFFF } else { x - 1 }
}

/// The target of a relative jump by the signed offset `e`.
fn jump_target(pc: u16, e: u8) -> (r: u16)
    ensures
        r == jr_target(pc, e),
{
    if e < 128 {
        pc.wrapping_add(e as u16)
    } else {
        pc.wrapping_sub(256 - e as u16)
    }
}

impl Cpu {
    /// The pair that a 2-bit field names, SP as the fourth.
    fn get_rr(&self, idx: u8) -> (r: u16)
        requires
            idx < 4,
        ensures
            r == self.rr_value(idx),
    {
        match idx {
            0 => self.bc.get(),
            1 => self.de.get(),
            2 => self.hl.get(),
            _ => self.sp,
        }
    }

    /// Write the pair that a 2-bit field names, SP as the fourth.
    fn set_rr(&mut self, idx: u8, w: u16)
        requires
            old(self).wf(),
            idx < 4,
        ensures
            final(self).wf(),
            *final(self) == old(self).with_rr(idx, w),
    {
        match idx {
            0 => self.bc = RegPair::from_u16(w),
            1 => self.de = RegPair::from_u16(w),
            2 => self.hl = RegPair::from_u16(w),
            _ => self.sp = w,
        }
    }

    /// Whether a branch condition holds.
    fn cond(&self, cc: u8) -> (r: bool)
        ensures
            r == self.cond_spec(cc),
    {
        if cc == 0 {
            !self.get_z()
        } else if cc == 1 {
            self.get_z()
        } else if cc == 2 {
            !self.get_c()
        } else {
            self.get_c()
        }
    }

    fn set_out_flags(&mut self, o: AluOut)
        requires
            old(self).wf(),
        ensures
            final(self).wf(),
            *final(self) == old(self).with_flags(o),
    {
        self.set_flags(o.z, o.n, o.h, o.c);
    }

    /// Run the arithmetic-logic operation `kind` on A and `b`.
    fn alu(&mut self, kind: u8, b: u8)
        requires
            old(self).wf(),
        ensures
            final(self).wf(),
            old(self).alu_post(*final(self), kind, b),
    {
        let a = self.af.hi;
        let c = self.get_c();
        let o = if kind == 0 {
            add8(a, b, false)
        } else if kind == 1 {
            add8(a, b, c)
        } else if kind == 2 {
            sub8(a, b, false)
        } else if kind == 3 {
            sub8(a, b, c)
        } else if kind == 4 {
            and8(a, b)
        } else if kind == 5 {
            xor8(a, b)
        } else if kind == 6 {
            or8(a, b)
        } else {
            sub8(a, b, false)
        };
        self.set_out_flags(o);
        if kind != 7 {
            self.af.hi = o.value;
        }
    }

    /// Push PC and jump to `target`.
    fn call(&mut self, target: u16)
        requires
            old(self).wf(),
        ensures
            final(self).wf(),
            old(self).called(*final(self), target),
    {
        let pc = self.pc;
        self.push_word(pc);
        let ghost s = *self;
        self.pc = target;
        assert(old(self).pushed(s, old(self).pc_spec()));
    }

    /// Pop PC from the stack.
    fn ret(&mut self)
        requires
            old(self).wf(),
        ensures
            final(self).wf(),
            old(self).returned(*final(self)),
    {
        let w = self.pop_word();
        self.pc = w;
    }

    /// Execute the extended instruction whose second byte is at PC.
    #[verifier::rlimit(40)]
    fn execute_cb(&mut self) -> (r: u32)
        requires
            old(self).wf(),
        ensures
            final(self).wf(),
            old(self).skip(1).cb_post(*final(self), old(self).imm8(), r),
    {
        let cb = self.fetch_byte();
        let idx = cb % 8;
        let n = (cb / 8) % 8;
        let v = self.read_operand(idx);
        let mem = idx == 6;
        if cb < 0x40 {
            let c = self.get_c();
            let o = shift8(shift_kind_of(n), v, c);
            self.set_out_flags(o);
            self.write_operand(idx, o.value);
            if mem { 16 } else { 8 }
        } else if cb < 0x80 {
            let c = self.get_c();
            let o = test_bit(v, n, c);
            self.set_out_flags(o);
            if mem { 12 } else { 8 }
        } else if cb < 0xC0 {
            self.write_operand(idx, reset_bit(v, n));
            if mem { 16 } else { 8 }
        } else {
            self.write_operand(idx, set_bit(v, n));
            if mem { 16 } else { 8 }
        }
    }
}

impl Cpu {
    fn execute_block0(&mut self, op: u8) -> (r: u32)
        requires
            old(self).wf(),
            op < 0x40,
            supported(op),
        ensures
            final(self).wf(),
            old(self).block0_post(*final(self), op, r),
    {
        if op % 8 == 4 || op % 8 == 5 || op % 8 == 6 || op % 16 == 1 || op % 16 == 3 || op % 16 == 9
            || op % 16 == 0xB {
            self.execute_block0_regular(op)
        } else {
            self.execute_block0_misc(op)
        }
    }

    /// The loads, increments, decrements and 16-bit additions below 0x40.
    #[verifier::rlimit(40)]
    fn execute_block0_regular(&mut self, op: u8) -> (r: u32)
        requires
            old(self).wf(),
            op < 0x40,
            op % 8 == 4 || op % 8 == 5 || op % 8 == 6 || op % 16 == 1 || op % 16 == 3 || op % 16 == 9
                || op % 16 == 0xB,
        ensures
            final(self).wf(),
            old(self).block0_post(*final(self), op, r),
    {
        reveal(Cpu::block0_post);
        let lo3 = op % 8;
        let mid3 = (op / 8) % 8;
        let rr = (op / 16) % 4;
        if lo3 == 6 {
            let v = self.fetch_byte();
            self.write_operand(mid3, v);
            if mid3 == 6 { 12 } else { 8 }
        } else if lo3 == 4 || lo3 == 5 {
            let v = self.read_operand(mid3);
            let c = self.get_c();
            let o = if lo3 == 4 { inc8(v, c) } else { dec8(v, c) };
            self.set_out_flags(o);
            self.write_operand(mid3, o.value);
            if mid3 == 6 { 12 } else { 4 }
        } else if op % 16 == 1 {
            let w = self.fetch_word();
            self.set_rr(rr, w);
            12
        } else if op % 16 == 3 {
            let w = self.get_rr(rr);
            self.set_rr(rr, wrap_inc(w));
            8
        } else if op % 16 == 0xB {
            let w = self.get_rr(rr);
            self.set_rr(rr, wrap_dec(w));
            8
        } else {
            let b = self.get_rr(rr);
            let (v, h, c) = add16(self.hl.get(), b);
            let z = self.get_z();
            self.set_flags(z, false, h, c);
            self.hl = RegPair::from_u16(v);
            8
        }
    }

    /// The remaining instructions below 0x40: memory loads through pairs,
    /// rotates of A, flag operations and relative jumps.
    #[verifier::rlimit(40)]
    fn execute_block0_misc(&mut self, op: u8) -> (r: u32)
        requires
            old(self).wf(),
            op < 0x40,
            supported(op),
            !(op % 8 == 4 || op % 8 == 5 || op % 8 == 6 || op % 16 == 1 || op % 16 == 3 || op % 16 == 9
                || op % 16 == 0xB),
        ensures
            final(self).wf(),
            old(self).block0_post(*final(self), op, r),
    {
        reveal(Cpu::block0_post);
        let mid3 = (op / 8) % 8;
        if op == 0x00 {
            4
        } else if op == 0x10 {
            self.pc = self.pc.wrapping_add(1);
            4
        } else if op % 8 == 2 {
            self.execute_block0_mem(op)
        } else if op == 0x07 || op == 0x0F || op == 0x17 || op == 0x1F {
            let c = self.get_c();
            let o = shift8(shift_kind_of(mid3), self.af.hi, c);
            self.set_out_flags(AluOut { z: false, ..o });
            self.af.hi = o.value;
            4
        } else if op == 0x2F {
            let a = self.af.hi;
            let z = self.get_z();
            let c = self.get_c();
            self.set_flags(z, true, true, c);
            self.af.hi = !a;
            4
        } else if op == 0x37 || op == 0x3F {
            let z = self.get_z();
            let c = if op == 0x37 { true } else { !self.get_c() };
            self.set_flags(z, false, false, c);
            4
        } else if op == 0x08 || op == 0x27 {
            self.execute_block0_special(op)
        } else {
            self.execute_block0_jump(op)
        }
    }

    /// `LD (a16), SP` and `DAA`.
    #[verifier::rlimit(40)]
    fn execute_block0_special(&mut self, op: u8) -> (r: u32)
        requires
            old(self).wf(),
            op == 0x08 || op == 0x27,
        ensures
            final(self).wf(),
            old(self).block0_post(*final(self), op, r),
    {
        reveal(Cpu::block0_post);
        if op == 0x08 {
            let w = self.fetch_word();
            let sp = self.sp;
            self.bus.write_byte(w, (sp % 256) as u8);
            let ghost mid = self.bus;
            self.bus.write_byte(wrap_inc(w), (sp / 256) as u8);
            assert(old(self).bus_spec().wrote(mid, old(self).imm16(), (sp % 256) as u8));
            20
        } else {
            let (n, h, c) = (self.get_n(), self.get_h(), self.get_c());
            let o = daa(self.af.hi, n, h, c);
            self.set_out_flags(o);
            self.af.hi = o.value;
            4
        }
    }

    /// The relative jumps.
    #[verifier::rlimit(40)]
    fn execute_block0_jump(&mut self, op: u8) -> (r: u32)
        requires
            old(self).wf(),
            op == 0x18 || op == 0x20 || op == 0x28 || op == 0x30 || op == 0x38,
        ensures
            final(self).wf(),
            old(self).block0_post(*final(self), op, r),
    {
        reveal(Cpu::block0_post);
        let mid3 = (op / 8) % 8;
        if op == 0x18 {
            let e = self.fetch_byte();
            self.pc = jump_target(self.pc, e);
            12
        } else {
            let taken = self.cond(mid3 % 4);
            let e = self.fetch_byte();
            if taken {
                self.pc = jump_target(self.pc, e);
                12
            } else {
                8
            }
        }
    }

    /// The loads between A and the byte that BC, DE or HL (stepped) points to.
    #[verifier::rlimit(40)]
    fn execute_block0_mem(&mut self, op: u8) -> (r: u32)
        requires
            old(self).wf(),
            op < 0x40,
            op % 8 == 2,
        ensures
            final(self).wf(),
            old(self).block0_post(*final(self), op, r),
    {
        reveal(Cpu::block0_post);
        if op == 0x02 || op == 0x12 {
            let addr = if op == 0x02 { self.bc.get() } else { self.de.get() };
            let a = self.af.hi;
            self.bus.write_byte(addr, a);
            8
        } else if op == 0x0A || op == 0x1A {
            let addr = if op == 0x0A { self.bc.get() } else { self.de.get() };
            self.af.hi = self.bus.get_address(addr);
            8
        } else if op == 0x22 || op == 0x32 {
            let hl = self.hl.get();
            let a = self.af.hi;
            self.bus.write_byte(hl, a);
            let hl2 = if op == 0x22 { wrap_inc(hl) } else { wrap_dec(hl) };
            self.hl = RegPair::from_u16(hl2);
            8
        } else {
            let hl = self.hl.get();
            let v = self.bus.get_address(hl);
            let hl2 = if op == 0x2A { wrap_inc(hl) } else { wrap_dec(hl) };
            self.hl = RegPair::from_u16(hl2);
            self.af.hi = v;
            8
        }
    }

    fn execute_block1(&mut self, op: u8) -> (r: u32)
        requires
            old(self).wf(),
            0x40 <= op < 0x80,
        ensures
            final(self).wf(),
            old(self).block1_post(*final(self), op, r),
    {
        reveal(Cpu::block1_post);
        let lo3 = op % 8;
        let mid3 = (op / 8) % 8;
        if op == 0x76 {
            self.halted = true;
            4
        } else {
            let v = self.read_operand(lo3);
            self.write_operand(mid3, v);
            if mid3 == 6 || lo3 == 6 { 8 } else { 4 }
        }
    }

    fn execute_block2(&mut self, op: u8) -> (r: u32)
        requires
            old(self).wf(),
            0x80 <= op < 0xC0,
        ensures
            final(self).wf(),
            old(self).block2_post(*final(self), op, r),
    {
        reveal(Cpu::block2_post);
        let lo3 = op % 8;
        let v = self.read_operand(lo3);
        self.alu((op / 8) % 8, v);
        if lo3 == 6 { 8 } else { 4 }
    }

    #[verifier::rlimit(40)]
    fn execute_block3(&mut self, op: u8) -> (r: u32)
        requires
            old(self).wf(),
            0xC0 <= op,
            supported(op),
        ensures
            final(self).wf(),
            old(self).block3_post(*final(self), op, r),
    {
        reveal(Cpu::block3_post);
        let lo3 = op % 8;
        let mid3 = (op / 8) % 8;
        let rr = (op / 16) % 4;
        let cc = mid3 % 4;
        if op == 0xF3 || op == 0xFB {
            self.ime = op == 0xFB;
            4
        } else if op == 0xC3 {
            self.pc = self.fetch_word();
            16
        } else if op == 0xE9 {
            self.pc = self.hl.get();
            4
        } else if op == 0xF9 {
            self.sp = self.hl.get();
            8
        } else if op == 0xE8 || op == 0xF8 {
            let sp = self.sp;
            let e = self.fetch_byte();
            self.set_out_flags(sp_offset(sp, e));
            let w = jump_target(sp, e);
            if op == 0xE8 {
                self.sp = w;
                16
            } else {
                self.hl = RegPair::from_u16(w);
                12
            }
        } else if op == 0xCD {
            let w = self.fetch_word();
            self.call(w);
            24
        } else if op == 0xC9 {
            self.ret();
            16
        } else if op == 0xD9 {
            self.ime = true;
            self.ret();
            16
        } else if op == 0xE0 || op == 0xE2 {
            let off = if op == 0xE0 { self.fetch_byte() } else { self.bc.lo };
            let a = self.af.hi;
            self.bus.write_byte(0xFF00 + off as u16, a);
            if op == 0xE0 { 12 } else { 8 }
        } else if op == 0xF0 || op == 0xF2 {
            let off = if op == 0xF0 { self.fetch_byte() } else { self.bc.lo };
            self.af.hi = self.bus.get_address(0xFF00 + off as u16);
            if op == 0xF0 { 12 } else { 8 }
        } else if op == 0xEA {
            let w = self.fetch_word();
            let a = self.af.hi;
            self.bus.write_byte(w, a);
            16
        } else if op == 0xFA {
            let w = self.fetch_word();
            self.af.hi = self.bus.get_address(w);
            16
        } else if op == 0xCB {
            self.execute_cb()
        } else if lo3 == 6 {
            let v = self.fetch_byte();
            self.alu(mid3, v);
            8
        } else if lo3 == 7 {
            self.call((op - 0xC7) as u16);
            16
        } else if op % 16 == 5 {
            let w = match rr {
                0 => self.bc.get(),
                1 => self.de.get(),
                2 => self.hl.get(),
                _ => self.af.get(),
            };
            self.push_word(w);
            16
        } else if op % 16 == 1 {
            let w = self.pop_word();
            let p = RegPair::from_u16(w);
            match rr {
                0 => self.bc = p,
                1 => self.de = p,
                2 => self.hl = p,
                _ => self.af = RegPair { hi: p.hi, lo: p.lo / 16 * 16 },
            }
            12
        } else if lo3 == 2 {
            let taken = self.cond(cc);
            let w = self.fetch_word();
            if taken {
                self.pc = w;
                16
            } else {
                12
            }
        } else if lo3 == 4 {
            let taken = self.cond(cc);
            let w = self.fetch_word();
            if taken {
                self.call(w);
                24
            } else {
                12
            }
        } else {
            if self.cond(cc) {
                self.ret();
                20
            } else {
                8
            }
        }
    }

    /// Run one step: wait in `HALT`, service an interrupt, or fetch, decode
    /// and execute one instruction. Returns the cycles consumed.
    #[verifier::rlimit(40)]
    pub fn step(&mut self) -> (r: Result<u32, CpuError>)
        requires
            old(self).wf(),
        ensures
            final(self).wf(),
            old(self).step_post(*final(self), r),
    {
        let pending = self.bus.get_address(IE_ADDR) & self.bus.get_address(IF_ADDR) & 0x1F;
        if self.halted {
            if pending == 0 {
                return Ok(4);
            }
            self.halted = false;
        }
        if self.ime && pending != 0 {
            return Ok(self.dispatch_interrupt());
        }
        let op = self.bus.get_address(self.pc);
        if !is_supported(op) {
            return Err(CpuError::IllegalOpcode { opcode: op, addr: self.pc });
        }
        self.pc = self.pc.wrapping_add(1);
        let cycles = if op < 0x40 {
            self.execute_block0(op)
        } else if op < 0x80 {
            self.execute_block1(op)
        } else if op < 0xC0 {
            self.execute_block2(op)
        } else {
            self.execute_block3(op)
        };
        Ok(cycles)
    }
}

} // verus!
