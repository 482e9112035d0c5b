use gbcore::cpu::{Cpu, CpuError};
use gbcore::memory::Bus;
use gbcore::registers::Register;

/// A processor whose program image holds `code` at 0x0100, with PC there.
fn cpu_with(code: &[u8]) -> Cpu {
    let mut rom = vec![0u8; 0x8000];
    rom[0x0100..0x0100 + code.len()].copy_from_slice(code);
    let mut cpu = Cpu::with_bus_attached(Bus::new(rom));
    cpu.set_pc(0x0100);
    cpu.set_sp(0xFFFE);
    cpu
}

fn regs(cpu: &Cpu) -> Vec<u16> {
    [Register::AF, Register::BC, Register::DE, Register::HL]
        .iter()
        .map(|r| cpu.get_regu16(*r).unwrap())
        .chain([cpu.sp(), cpu.pc()])
        .collect()
}

#[test]
fn nop_advances_pc() {
    let mut cpu = cpu_with(&[]);
    cpu.set_pc(0x0150);
    cpu.set_regu16(Register::BC, 0x1234).unwrap();
    cpu.set_regu8(Register::F, 0xB0).unwrap();
    let before = regs(&cpu);
    assert_eq!(cpu.step(), Ok(4));
    assert_eq!(cpu.pc(), 0x0151);
    let after = regs(&cpu);
    assert_eq!(before[..5], after[..5]);
}

#[test]
fn interrupt_dispatch_pushes_pc_and_jumps() {
    let mut cpu = cpu_with(&[]);
    cpu.write_byte(0xFFFF, 0x01);
    cpu.write_byte(0xFF0F, 0x01);
    cpu.set_ime(true);
    cpu.set_pc(0x1000);
    cpu.set_sp(0xFFFE);
    assert_eq!(cpu.step(), Ok(20));
    assert_eq!(cpu.read_byte(0xFFFD), 0x10);
    assert_eq!(cpu.read_byte(0xFFFC), 0x00);
    assert_eq!(cpu.sp(), 0xFFFC);
    assert_eq!(cpu.pc(), 0x0040);
    assert_eq!(cpu.read_byte(0xFF0F) & 0x01, 0);
    assert!(!cpu.ime());
}

#[test]
fn lowest_pending_interrupt_goes_first() {
    let mut cpu = cpu_with(&[]);
    cpu.write_byte(0xFFFF, 0x1F);
    cpu.raise_interrupt(4);
    cpu.raise_interrupt(2);
    cpu.set_ime(true);
    assert_eq!(cpu.step(), Ok(20));
    assert_eq!(cpu.pc(), 0x0050);
    assert_eq!(cpu.read_byte(0xFF0F), 0x10);
}

#[test]
fn disabled_interrupt_is_not_serviced() {
    let mut cpu = cpu_with(&[0x00]);
    cpu.write_byte(0xFF0F, 0x01);
    cpu.set_ime(true);
    assert_eq!(cpu.step(), Ok(4));
    assert_eq!(cpu.pc(), 0x0101);
}

#[test]
fn halt_waits_until_interrupt_pending() {
    let mut cpu = cpu_with(&[0x76, 0x00]);
    cpu.set_regu16(Register::HL, 0x4242).unwrap();
    assert_eq!(cpu.step(), Ok(4));
    assert!(cpu.halted());
    let before = regs(&cpu);
    for _ in 0..3 {
        assert_eq!(cpu.step(), Ok(4));
        assert_eq!(regs(&cpu), before);
        assert!(cpu.halted());
    }
    cpu.write_byte(0xFFFF, 0x04);
    cpu.raise_interrupt(2);
    assert_eq!(cpu.step(), Ok(4));
    assert!(!cpu.halted());
    assert_eq!(cpu.pc(), 0x0102);
}

#[test]
fn illegal_opcode_is_reported() {
    let mut cpu = cpu_with(&[0xD3]);
    assert_eq!(cpu.step(), Err(CpuError::IllegalOpcode { opcode: 0xD3, addr: 0x0100 }));
    assert_eq!(cpu.pc(), 0x0100);
}

#[test]
fn loads_and_arithmetic() {
    // LD A,0x0F; LD B,0x01; ADD A,B; LD HL,0xC000; LD (HL),A; INC (HL); LD C,(HL)
    let mut cpu = cpu_with(&[0x3E, 0x0F, 0x06, 0x01, 0x80, 0x21, 0x00, 0xC0, 0x77, 0x34, 0x4E]);
    assert_eq!(cpu.step(), Ok(8));
    assert_eq!(cpu.step(), Ok(8));
    assert_eq!(cpu.step(), Ok(4));
    assert_eq!(cpu.get_regu8(Register::A), Ok(0x10));
    assert!(cpu.get_h() && !cpu.get_c() && !cpu.get_z() && !cpu.get_n());
    assert_eq!(cpu.step(), Ok(12));
    assert_eq!(cpu.get_regu16(Register::HL), Ok(0xC000));
    assert_eq!(cpu.step(), Ok(8));
    assert_eq!(cpu.read_byte(0xC000), 0x10);
    assert_eq!(cpu.step(), Ok(12));
    assert_eq!(cpu.read_byte(0xE000), 0x11);
    assert_eq!(cpu.step(), Ok(8));
    assert_eq!(cpu.get_regu8(Register::C), Ok(0x11));
    assert_eq!(cpu.pc(), 0x010B);
}

#[test]
fn compare_keeps_a() {
    // LD A,0x42; CP 0x42; SUB 0x43
    let mut cpu = cpu_with(&[0x3E, 0x42, 0xFE, 0x42, 0xD6, 0x43]);
    cpu.step().unwrap();
    assert_eq!(cpu.step(), Ok(8));
    assert_eq!(cpu.get_regu8(Register::A), Ok(0x42));
    assert!(cpu.get_z() && cpu.get_n());
    cpu.step().unwrap();
    assert_eq!(cpu.get_regu8(Register::A), Ok(0xFF));
    assert!(cpu.get_c() && !cpu.get_z());
}

#[test]
fn relative_jumps_cost_more_when_taken() {
    // XOR A; JR Z,+2; NOP; NOP; JR NZ,-2; JR -4
    let mut cpu = cpu_with(&[0xAF, 0x28, 0x02, 0x00, 0x00, 0x20, 0xFE, 0x18, 0xFC]);
    cpu.step().unwrap();
    assert!(cpu.get_z());
    assert_eq!(cpu.step(), Ok(12));
    assert_eq!(cpu.pc(), 0x0105);
    assert_eq!(cpu.step(), Ok(8));
    assert_eq!(cpu.pc(), 0x0107);
    assert_eq!(cpu.step(), Ok(12));
    assert_eq!(cpu.pc(), 0x0105);
}

#[test]
fn call_and_return() {
    // CALL 0x0200; at 0x0200: RET
    let mut code = vec![0u8; 0x101];
    code[0] = 0xCD;
    code[1] = 0x00;
    code[2] = 0x02;
    code[0x100] = 0xC9;
    let mut cpu = cpu_with(&code);
    assert_eq!(cpu.step(), Ok(24));
    assert_eq!(cpu.pc(), 0x0200);
    assert_eq!(cpu.sp(), 0xFFFC);
    assert_eq!(cpu.read_byte(0xFFFD), 0x01);
    assert_eq!(cpu.read_byte(0xFFFC), 0x03);
    assert_eq!(cpu.step(), Ok(16));
    assert_eq!(cpu.pc(), 0x0103);
    assert_eq!(cpu.sp(), 0xFFFE);
}

#[test]
fn push_and_pop() {
    // LD BC,0x1234; PUSH BC; POP DE; PUSH DE; POP AF
    let mut cpu = cpu_with(&[0x01, 0x34, 0x12, 0xC5, 0xD1, 0xD5, 0xF1]);
    assert_eq!(cpu.step(), Ok(12));
    assert_eq!(cpu.step(), Ok(16));
    assert_eq!(cpu.step(), Ok(12));
    assert_eq!(cpu.get_regu16(Register::DE), Ok(0x1234));
    cpu.step().unwrap();
    cpu.step().unwrap();
    assert_eq!(cpu.get_regu16(Register::AF), Ok(0x1230));
}

#[test]
fn extended_opcodes() {
    // LD A,0x81; RLC A; BIT 7,A; SET 7,A; RES 0,A; SWAP A
    let mut cpu = cpu_with(&[0x3E, 0x81, 0xCB, 0x07, 0xCB, 0x7F, 0xCB, 0xFF, 0xCB, 0x87, 0xCB, 0x37]);
    cpu.step().unwrap();
    assert_eq!(cpu.step(), Ok(8));
    assert_eq!(cpu.get_regu8(Register::A), Ok(0x03));
    assert!(cpu.get_c());
    assert_eq!(cpu.step(), Ok(8));
    assert!(cpu.get_z() && cpu.get_h());
    cpu.step().unwrap();
    assert_eq!(cpu.get_regu8(Register::A), Ok(0x83));
    cpu.step().unwrap();
    assert_eq!(cpu.get_regu8(Register::A), Ok(0x82));
    cpu.step().unwrap();
    assert_eq!(cpu.get_regu8(Register::A), Ok(0x28));
    assert_eq!(cpu.pc(), 0x010C);
}

#[test]
fn high_page_loads() {
    // LD A,0x5A; LDH (0x80),A; LD A,0; LDH A,(0x80); LD (0xC100),A
    let mut cpu = cpu_with(&[0x3E, 0x5A, 0xE0, 0x80, 0x3E, 0x00, 0xF0, 0x80, 0xEA, 0x00, 0xC1]);
    cpu.step().unwrap();
    assert_eq!(cpu.step(), Ok(12));
    assert_eq!(cpu.read_byte(0xFF80), 0x5A);
    cpu.step().unwrap();
    assert_eq!(cpu.step(), Ok(12));
    assert_eq!(cpu.get_regu8(Register::A), Ok(0x5A));
    assert_eq!(cpu.step(), Ok(16));
    assert_eq!(cpu.read_byte(0xC100), 0x5A);
}

#[test]
fn decimal_adjust_after_add() {
    // LD A,0x45; ADD A,0x38; DAA
    let mut cpu = cpu_with(&[0x3E, 0x45, 0xC6, 0x38, 0x27]);
    cpu.step().unwrap();
    cpu.step().unwrap();
    assert_eq!(cpu.get_regu8(Register::A), Ok(0x7D));
    assert_eq!(cpu.step(), Ok(4));
    assert_eq!(cpu.get_regu8(Register::A), Ok(0x83));
    assert!(!cpu.get_c());
}

#[test]
fn store_stack_pointer() {
    // LD (0xC010),SP
    let mut cpu = cpu_with(&[0x08, 0x10, 0xC0]);
    cpu.set_sp(0xABCD);
    assert_eq!(cpu.step(), Ok(20));
    assert_eq!(cpu.read_byte(0xC010), 0xCD);
    assert_eq!(cpu.read_byte(0xC011), 0xAB);
    assert_eq!(cpu.pc(), 0x0103);
}

#[test]
fn stack_pointer_offsets() {
    // ADD SP,-2; LD HL,SP+0x01
    let mut cpu = cpu_with(&[0xE8, 0xFE, 0xF8, 0x01]);
    cpu.set_sp(0xFFF8);
    assert_eq!(cpu.step(), Ok(16));
    assert_eq!(cpu.sp(), 0xFFF6);
    assert!(cpu.get_c() && cpu.get_h() && !cpu.get_z() && !cpu.get_n());
    assert_eq!(cpu.step(), Ok(12));
    assert_eq!(cpu.get_regu16(Register::HL), Ok(0xFFF7));
    assert_eq!(cpu.sp(), 0xFFF6);
    assert!(!cpu.get_c() && !cpu.get_h());
}

#[test]
fn wide_add_to_hl() {
    // LD HL,0x00FF; LD BC,0x0001; ADD HL,BC
    let mut cpu = cpu_with(&[0x21, 0xFF, 0x00, 0x01, 0x01, 0x00, 0x09]);
    cpu.step().unwrap();
    cpu.step().unwrap();
    assert_eq!(cpu.step(), Ok(8));
    assert_eq!(cpu.get_regu16(Register::HL), Ok(0x0100));
    assert!(cpu.get_h() && !cpu.get_c() && !cpu.get_n());
}

#[test]
fn conditional_call_and_return() {
    // SCF; CALL NC,0x0200 (not taken); CALL C,0x0200; at 0x0200: RET NC (not taken); RET C
    let mut code = vec![0u8; 0x102];
    code[..7].copy_from_slice(&[0x37, 0xD4, 0x00, 0x02, 0xDC, 0x00, 0x02]);
    code[0x100] = 0xD0;
    code[0x101] = 0xD8;
    let mut cpu = cpu_with(&code);
    cpu.step().unwrap();
    assert_eq!(cpu.step(), Ok(12));
    assert_eq!(cpu.pc(), 0x0104);
    assert_eq!(cpu.step(), Ok(24));
    assert_eq!(cpu.pc(), 0x0200);
    assert_eq!(cpu.step(), Ok(8));
    assert_eq!(cpu.step(), Ok(20));
    assert_eq!(cpu.pc(), 0x0107);
}

#[test]
fn restart_and_enable_interrupts() {
    // EI; RST 0x28
    let mut cpu = cpu_with(&[0xFB, 0xEF]);
    assert_eq!(cpu.step(), Ok(4));
    assert!(cpu.ime());
    assert_eq!(cpu.step(), Ok(16));
    assert_eq!(cpu.pc(), 0x0028);
    assert_eq!(cpu.read_byte(0xFFFC), 0x02);
    assert_eq!(cpu.read_byte(0xFFFD), 0x01);
}
