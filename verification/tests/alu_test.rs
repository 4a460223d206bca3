use crab_gb::registers::Registers;

fn with_a(a: u8) -> Registers {
    let mut regs = Registers::new();
    regs.a = a;
    regs
}

#[test]
fn add_flags_follow_the_alu_table() {
    // plain case, no carries
    let mut regs = with_a(0x12);
    regs.alu_add(0x34);
    assert_eq!(regs.a, 0x46);
    assert!(!regs.zf && !regs.nf && !regs.hf && !regs.cf);
    // half carry out of bit 3 only
    let mut regs = with_a(0x0F);
    regs.alu_add(0x01);
    assert_eq!(regs.a, 0x10);
    assert!(!regs.zf && !regs.nf && regs.hf && !regs.cf);
    // full wrap: both carries and zero
    let mut regs = with_a(0xFF);
    regs.alu_add(0x01);
    assert_eq!(regs.a, 0x00);
    assert!(regs.zf && !regs.nf && regs.hf && regs.cf);
}

#[test]
fn adc_includes_carry_in_sum_and_tests() {
    let mut regs = with_a(0x0E);
    regs.cf = true;
    regs.alu_adc(0x01);
    assert_eq!(regs.a, 0x10);
    assert!(!regs.zf && !regs.nf && regs.hf && !regs.cf);
    let mut regs = with_a(0xFF);
    regs.cf = true;
    regs.alu_adc(0x00);
    assert_eq!(regs.a, 0x00);
    assert!(regs.zf && !regs.nf && regs.hf && regs.cf);
}

#[test]
fn sub_and_cp_flags() {
    let mut regs = with_a(0x10);
    regs.alu_sub(0x01);
    assert_eq!(regs.a, 0x0F);
    assert!(!regs.zf && regs.nf && regs.hf && !regs.cf);
    let mut regs = with_a(0x01);
    regs.alu_sub(0x02);
    assert_eq!(regs.a, 0xFF);
    assert!(!regs.zf && regs.nf && regs.hf && regs.cf);
    // CP leaves A alone but sets the same flags
    let mut regs = with_a(0x42);
    regs.alu_cp(0x42);
    assert_eq!(regs.a, 0x42);
    assert!(regs.zf && regs.nf && !regs.hf && !regs.cf);
}

#[test]
fn sbc_includes_borrow() {
    let mut regs = with_a(0x10);
    regs.cf = true;
    regs.alu_sbc(0x0F);
    assert_eq!(regs.a, 0x00);
    assert!(regs.zf && regs.nf && regs.hf && !regs.cf);
    let mut regs = with_a(0x00);
    regs.cf = true;
    regs.alu_sbc(0x00);
    assert_eq!(regs.a, 0xFF);
    assert!(!regs.zf && regs.nf && regs.hf && regs.cf);
}

#[test]
fn and_or_xor_fixed_flags() {
    let mut regs = with_a(0xF0);
    regs.cf = true;
    regs.alu_and(0x0F);
    assert_eq!(regs.a, 0x00);
    assert!(regs.zf && !regs.nf && regs.hf && !regs.cf);
    let mut regs = with_a(0xF0);
    regs.alu_or(0x0F);
    assert_eq!(regs.a, 0xFF);
    assert!(!regs.zf && !regs.nf && !regs.hf && !regs.cf);
    let mut regs = with_a(0xAA);
    regs.alu_xor(0xAA);
    assert_eq!(regs.a, 0x00);
    assert!(regs.zf && !regs.nf && !regs.hf && !regs.cf);
}

#[test]
fn inc_dec_leave_carry_alone() {
    let mut regs = Registers::new();
    regs.cf = true;
    let r = regs.alu_inc(0xFF);
    assert_eq!(r, 0x00);
    assert!(regs.zf && !regs.nf && regs.hf && regs.cf);
    let r = regs.alu_dec(0x10);
    assert_eq!(r, 0x0F);
    assert!(!regs.zf && regs.nf && regs.hf && regs.cf);
    let r = regs.alu_dec(0x01);
    assert_eq!(r, 0x00);
    assert!(regs.zf && regs.nf && !regs.hf && regs.cf);
}

#[test]
fn add_hl_keeps_z_and_carries_at_bits_11_and_15() {
    let mut regs = Registers::new();
    regs.zf = true;
    regs.h = 0x0F;
    regs.l = 0xFF;
    regs.alu_add_hl(0x0001);
    assert_eq!((regs.h, regs.l), (0x10, 0x00));
    assert!(regs.zf && !regs.nf && regs.hf && !regs.cf);
    let mut regs = Registers::new();
    regs.h = 0xFF;
    regs.l = 0xFF;
    regs.alu_add_hl(0x0001);
    assert_eq!((regs.h, regs.l), (0x00, 0x00));
    assert!(!regs.nf && regs.hf && regs.cf);
}

#[test]
fn rotates_on_a_clear_z() {
    let mut regs = with_a(0x80);
    regs.alu_rlca();
    assert_eq!(regs.a, 0x01);
    assert!(!regs.zf && !regs.nf && !regs.hf && regs.cf);
    let mut regs = with_a(0x01);
    regs.alu_rrca();
    assert_eq!(regs.a, 0x80);
    assert!(regs.cf);
    let mut regs = with_a(0x80);
    regs.cf = true;
    regs.alu_rla();
    assert_eq!(regs.a, 0x01);
    assert!(regs.cf);
    let mut regs = with_a(0x00);
    regs.cf = true;
    regs.alu_rra();
    assert_eq!(regs.a, 0x80);
    assert!(!regs.cf);
}

#[test]
fn cb_shifts_and_swap() {
    let mut regs = Registers::new();
    assert_eq!(regs.cb_rlc(0x81), 0x03);
    assert!(regs.cf && !regs.zf);
    assert_eq!(regs.cb_rrc(0x01), 0x80);
    assert!(regs.cf);
    regs.cf = true;
    assert_eq!(regs.cb_rl(0x00), 0x01);
    assert!(!regs.cf);
    regs.cf = true;
    assert_eq!(regs.cb_rr(0x00), 0x80);
    assert!(!regs.cf);
    assert_eq!(regs.cb_sla(0xC0), 0x80);
    assert!(regs.cf);
    assert_eq!(regs.cb_sra(0x81), 0xC0);
    assert!(regs.cf);
    assert_eq!(regs.cb_swap(0xAB), 0xBA);
    assert!(!regs.cf && !regs.zf);
    assert_eq!(regs.cb_swap(0x00), 0x00);
    assert!(regs.zf);
    assert_eq!(regs.cb_srl(0x01), 0x00);
    assert!(regs.zf && regs.cf);
}

#[test]
fn cb_bit_sets_z_from_tested_bit() {
    let mut regs = Registers::new();
    regs.cf = true;
    regs.cb_bit(7, 0x80);
    assert!(!regs.zf && !regs.nf && regs.hf && regs.cf);
    regs.cb_bit(0, 0x80);
    assert!(regs.zf);
}

#[test]
fn daa_encodes_bcd_sums() {
    // 45 + 38 = 83 in BCD
    let mut regs = with_a(0x45);
    regs.alu_add(0x38);
    regs.alu_daa();
    assert_eq!(regs.a, 0x83);
    assert!(!regs.cf && !regs.hf);
    // 99 + 1 = 100: result 00 with carry
    let mut regs = with_a(0x99);
    regs.alu_add(0x01);
    regs.alu_daa();
    assert_eq!(regs.a, 0x00);
    assert!(regs.cf && regs.zf);
    // 42 - 13 = 29 in BCD
    let mut regs = with_a(0x42);
    regs.alu_sub(0x13);
    regs.alu_daa();
    assert_eq!(regs.a, 0x29);
    assert!(!regs.cf);
    // 10 - 20 borrows: 90 with carry kept
    let mut regs = with_a(0x10);
    regs.alu_sub(0x20);
    regs.alu_daa();
    assert_eq!(regs.a, 0x90);
    assert!(regs.cf);
}

#[test]
fn add_sp_uses_low_byte_unsigned_flags() {
    let mut regs = Registers::new();
    regs.sp = 0x00FF;
    regs.alu_add_sp(0x01);
    assert_eq!(regs.sp, 0x0100);
    assert!(!regs.zf && !regs.nf && regs.hf && regs.cf);
    let mut regs = Registers::new();
    regs.sp = 0x0FF8;
    regs.alu_ld_hl_sp(0x08);
    assert_eq!((regs.h, regs.l), (0x10, 0x00));
    assert!(regs.hf && regs.cf);
    assert_eq!(regs.sp, 0x0FF8);
}
