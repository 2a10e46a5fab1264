//! Register-file and ALU behaviour: pair composition, flag algebra and the
//! documented boundary cases.

use gbcore::cpu::Cpu;

#[test]
fn pair_views_compose_big_endian() {
    let mut cpu = Cpu::new();
    cpu.set_bc(0x1234);
    assert_eq!(cpu.b, 0x12);
    assert_eq!(cpu.c, 0x34);
    assert_eq!(cpu.get_bc(), 0x1234);
    cpu.set_de(0xABCD);
    assert_eq!(cpu.get_de(), 0xABCD);
    cpu.set_hl(0xFFFF);
    assert_eq!(cpu.get_hl(), 0xFFFF);
}

#[test]
fn af_write_masks_low_nibble() {
    let mut cpu = Cpu::new();
    cpu.set_af(0x12FF);
    assert_eq!(cpu.a, 0x12);
    assert_eq!(cpu.f, 0xF0);
    assert_eq!(cpu.get_af(), 0x12F0);
    assert_eq!(cpu.f & 0x0F, 0);
}

#[test]
fn flag_setters_hit_their_bits() {
    let mut cpu = Cpu::new();
    cpu.set_f_zero(true);
    cpu.set_f_negative(true);
    cpu.set_f_half_carry(true);
    cpu.set_f_carry(true);
    assert_eq!(cpu.f, 0xF0);
    cpu.set_f_negative(false);
    assert!(cpu.get_f_zero());
    assert!(!cpu.get_f_substract());
    assert!(cpu.get_f_half_carry());
    assert!(cpu.get_f_carry());
}

#[test]
fn inc_wraps_at_ff() {
    let mut cpu = Cpu::new();
    let r = cpu.apply_inc8_with_flags(0xFF);
    assert_eq!(r, 0x00);
    assert!(cpu.get_f_zero());
    assert!(cpu.get_f_half_carry());
    assert!(!cpu.get_f_substract());
}

#[test]
fn inc_keeps_carry() {
    let mut cpu = Cpu::new();
    cpu.set_f_carry(true);
    let r = cpu.apply_inc8_with_flags(0x0F);
    assert_eq!(r, 0x10);
    assert!(cpu.get_f_half_carry());
    assert!(cpu.get_f_carry());
}

#[test]
fn dec_wraps_at_zero() {
    let mut cpu = Cpu::new();
    let r = cpu.apply_dec8_with_flags(0x00);
    assert_eq!(r, 0xFF);
    assert!(!cpu.get_f_zero());
    assert!(cpu.get_f_half_carry());
    assert!(cpu.get_f_substract());
}

#[test]
fn add8_carries() {
    let mut cpu = Cpu::new();
    let r = cpu.apply_add8_with_flags(0xFF, 0x02, false);
    assert_eq!(r, 0x01);
    assert!(cpu.get_f_carry());
    assert!(cpu.get_f_half_carry());
    assert!(!cpu.get_f_zero());
    assert!(!cpu.get_f_substract());
}

#[test]
fn adc_uses_carry_in() {
    let mut cpu = Cpu::new();
    cpu.set_f_carry(true);
    let r = cpu.apply_add8_with_flags(0x10, 0x20, true);
    assert_eq!(r, 0x31);
    assert!(!cpu.get_f_carry());
}

#[test]
fn sub8_borrows() {
    let mut cpu = Cpu::new();
    let r = cpu.apply_sub8_with_flags(0x10, 0x20, false);
    assert_eq!(r, 0xF0);
    assert!(cpu.get_f_carry());
    assert!(cpu.get_f_substract());
}

#[test]
fn sub8_zero_sets_z() {
    let mut cpu = Cpu::new();
    let r = cpu.apply_sub8_with_flags(0x42, 0x42, false);
    assert_eq!(r, 0);
    assert!(cpu.get_f_zero());
    assert!(!cpu.get_f_carry());
}

#[test]
fn and_or_xor_flags() {
    let mut cpu = Cpu::new();
    let r = cpu.apply_and8_with_flags(0xF0, 0x0F);
    assert_eq!(r, 0);
    assert!(cpu.get_f_zero());
    assert!(cpu.get_f_half_carry());
    assert!(!cpu.get_f_carry());
    let r = cpu.apply_or8_with_flags(0xF0, 0x0F);
    assert_eq!(r, 0xFF);
    assert!(!cpu.get_f_zero());
    assert!(!cpu.get_f_half_carry());
    let r = cpu.apply_xor8_with_flags(0xFF, 0xFF);
    assert_eq!(r, 0);
    assert!(cpu.get_f_zero());
}

#[test]
fn add16_half_and_full_carry() {
    let mut cpu = Cpu::new();
    cpu.set_f_zero(true);
    let r = cpu.apply_add16_with_flags(0x8000, 0x8000);
    assert_eq!(r, 0x0000);
    assert!(cpu.get_f_carry());
    assert!(!cpu.get_f_half_carry());
    assert!(!cpu.get_f_substract());
    // Z is untouched by the 16-bit add.
    assert!(cpu.get_f_zero());
}

#[test]
fn rotate_left_eight_times_is_identity() {
    let mut cpu = Cpu::new();
    let mut v: u8 = 0xA5;
    for _ in 0..8 {
        v = cpu.apply_rotate_left_with_flags(v, false);
    }
    assert_eq!(v, 0xA5);
}

#[test]
fn rotate_left_carries_out_bit7() {
    let mut cpu = Cpu::new();
    let r = cpu.apply_rotate_left_with_flags(0x80, false);
    assert_eq!(r, 0x01);
    assert!(cpu.get_f_carry());
    let r = cpu.apply_rotate_left_with_flags(0x80, true);
    assert_eq!(r, 0x01);
    assert!(cpu.get_f_carry());
}

#[test]
fn rotate_right_carries_out_bit0() {
    let mut cpu = Cpu::new();
    let r = cpu.apply_rotate_right_with_flags(0x01, false);
    assert_eq!(r, 0x80);
    assert!(cpu.get_f_carry());
    let r = cpu.apply_rotate_right_with_flags(0x02, true);
    assert_eq!(r, 0x81);
    assert!(!cpu.get_f_carry());
}

#[test]
fn to_string_reports_pc() {
    let mut cpu = Cpu::new();
    cpu.pc = 0x0100;
    assert_eq!(cpu.to_string(), "PC: 0x0100, ");
}
