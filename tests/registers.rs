use gbcore::cpu::{Cpu, CpuError};
use gbcore::registers::Register;

#[test]
fn new_cpu_is_zeroed() {
    let cpu = Cpu::new();
    assert_eq!(cpu.get_regu16(Register::AF), Ok(0));
    assert_eq!(cpu.get_regu16(Register::BC), Ok(0));
    assert_eq!(cpu.get_regu16(Register::DE), Ok(0));
    assert_eq!(cpu.get_regu16(Register::HL), Ok(0));
    assert_eq!(cpu.pc(), 0);
    assert_eq!(cpu.sp(), 0);
    assert!(!cpu.ime());
    assert!(!cpu.halted());
}

#[test]
fn half_write_shows_in_pair() {
    let mut cpu = Cpu::new();
    cpu.set_regu16(Register::BC, 0x1234).unwrap();
    cpu.set_regu8(Register::B, 0xAB).unwrap();
    assert_eq!(cpu.get_regu16(Register::BC), Ok(0xAB34));
    cpu.set_regu8(Register::C, 0xCD).unwrap();
    assert_eq!(cpu.get_regu16(Register::BC), Ok(0xABCD));
    cpu.set_regu8(Register::H, 0x01).unwrap();
    cpu.set_regu8(Register::L, 0x02).unwrap();
    assert_eq!(cpu.get_regu16(Register::HL), Ok(0x0102));
    assert_eq!(cpu.get_regu16(Register::DE), Ok(0));
    cpu.set_regu8(Register::A, 0x7F).unwrap();
    assert_eq!(cpu.get_regu16(Register::AF), Ok(0x7F00));
}

#[test]
fn pair_write_shows_in_halves() {
    let mut cpu = Cpu::new();
    cpu.set_regu16(Register::DE, 0xBEEF).unwrap();
    assert_eq!(cpu.get_regu8(Register::D), Ok(0xBE));
    assert_eq!(cpu.get_regu8(Register::E), Ok(0xEF));
}

#[test]
fn flag_register_low_nibble_stays_clear() {
    let mut cpu = Cpu::new();
    cpu.set_regu8(Register::F, 0xFF).unwrap();
    assert_eq!(cpu.get_regu8(Register::F), Ok(0xF0));
    cpu.set_regu16(Register::AF, 0x12FF).unwrap();
    assert_eq!(cpu.get_regu8(Register::F), Ok(0xF0));
    assert_eq!(cpu.get_regu8(Register::A), Ok(0x12));
    assert_eq!(cpu.get_regu16(Register::AF), Ok(0x12F0));
    cpu.set_regu8(Register::F, 0x0F).unwrap();
    assert_eq!(cpu.get_regu8(Register::F), Ok(0x00));
}

#[test]
fn flags_read_their_bits() {
    let mut cpu = Cpu::new();
    cpu.set_regu8(Register::F, 0x80).unwrap();
    assert!(cpu.get_z() && !cpu.get_n() && !cpu.get_h() && !cpu.get_c());
    cpu.set_regu8(Register::F, 0x40).unwrap();
    assert!(!cpu.get_z() && cpu.get_n() && !cpu.get_h() && !cpu.get_c());
    cpu.set_regu8(Register::F, 0x20).unwrap();
    assert!(!cpu.get_z() && !cpu.get_n() && cpu.get_h() && !cpu.get_c());
    cpu.set_regu8(Register::F, 0x10).unwrap();
    assert!(!cpu.get_z() && !cpu.get_n() && !cpu.get_h() && cpu.get_c());
    cpu.set_flags(true, false, true, false);
    assert_eq!(cpu.get_regu8(Register::F), Ok(0xA0));
}

#[test]
fn wrong_width_register_is_refused() {
    let mut cpu = Cpu::new();
    assert_eq!(cpu.get_regu8(Register::HL), Err(CpuError::InvalidRegister));
    assert_eq!(cpu.get_regu16(Register::A), Err(CpuError::InvalidRegister));
    assert_eq!(cpu.set_regu8(Register::AF, 1), Err(CpuError::InvalidRegister));
    assert_eq!(cpu.set_regu16(Register::L, 0x1234), Err(CpuError::InvalidRegister));
    assert_eq!(cpu.get_regu16(Register::AF), Ok(0));
    assert_eq!(cpu.get_regu16(Register::HL), Ok(0));
}

#[test]
fn single_flag_setters_touch_one_bit() {
    let mut cpu = Cpu::new();
    cpu.set_regu8(Register::F, 0x50).unwrap();
    cpu.set_z(true);
    assert_eq!(cpu.get_regu8(Register::F), Ok(0xD0));
    cpu.set_n(false);
    assert_eq!(cpu.get_regu8(Register::F), Ok(0x90));
    cpu.set_h(true);
    assert_eq!(cpu.get_regu8(Register::F), Ok(0xB0));
    cpu.set_c(false);
    assert_eq!(cpu.get_regu8(Register::F), Ok(0xA0));
    assert_eq!(cpu.get_regu8(Register::A), Ok(0x00));
}
