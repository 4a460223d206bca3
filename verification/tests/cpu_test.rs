use crab_gb::cpu::CPU;
use crab_gb::err::EmuError;
use crab_gb::joypad::Button;

fn fresh_cpu() -> CPU {
    CPU::new(vec![0u8; 0x100]).unwrap()
}

/// A machine with the given bytes placed at 0x1000 of the cartridge and
/// PC standing there, the boot ROM latch already disarmed.
fn cpu_with_code(code: &[u8]) -> CPU {
    let mut cpu = fresh_cpu();
    let mut rom = vec![0u8; 0x8000];
    rom[0x1000..0x1000 + code.len()].copy_from_slice(code);
    cpu.load_rom(rom).unwrap();
    cpu.memory.write(0xFF50, 1).unwrap();
    cpu.registers.pc = 0x1000;
    cpu
}

#[test]
fn scenario_inc_a_half_carry() {
    let mut cpu = fresh_cpu();
    cpu.registers.a = 0x0F;
    cpu.registers.cf = true;
    let cycles = cpu.decode(0x3C).unwrap();
    assert_eq!(cycles, 1);
    assert_eq!(cpu.registers.a, 0x10);
    assert!(!cpu.registers.zf);
    assert!(!cpu.registers.nf);
    assert!(cpu.registers.hf);
    assert!(cpu.registers.cf); // C unchanged
}

#[test]
fn scenario_add_a_imm_carries() {
    let mut cpu = fresh_cpu();
    cpu.registers.a = 0xFF;
    cpu.registers.pc = 0xC000;
    cpu.memory.write(0xC000, 0x01).unwrap();
    let cycles = cpu.decode(0xC6).unwrap();
    assert_eq!(cycles, 2);
    assert_eq!(cpu.registers.a, 0x00);
    assert!(cpu.registers.zf);
    assert!(!cpu.registers.nf);
    assert!(cpu.registers.hf);
    assert!(cpu.registers.cf);
}

#[test]
fn scenario_add_sp_signed() {
    let mut cpu = fresh_cpu();
    cpu.registers.sp = 0xFFF8;
    cpu.registers.pc = 0xC000;
    cpu.memory.write(0xC000, 0xFF).unwrap(); // -1 as i8
    let cycles = cpu.decode(0xE8).unwrap();
    assert_eq!(cycles, 4);
    assert_eq!(cpu.registers.sp, 0xFFF7);
    assert!(!cpu.registers.zf);
    assert!(!cpu.registers.nf);
    assert!(cpu.registers.hf); // 0x8 + 0xF > 0xF
    assert!(cpu.registers.cf); // 0xF8 + 0xFF > 0xFF
}

#[test]
fn scenario_conditional_jump_taken_and_not() {
    let mut cpu = cpu_with_code(&[0x28, 0x05]);
    cpu.registers.zf = true;
    let cycles = cpu.step().unwrap();
    assert_eq!(cycles, 3);
    assert_eq!(cpu.registers.pc, 0x1007);

    let mut cpu = cpu_with_code(&[0x28, 0x05]);
    cpu.registers.zf = false;
    let cycles = cpu.step().unwrap();
    assert_eq!(cycles, 2);
    assert_eq!(cpu.registers.pc, 0x1002);
}

#[test]
fn scenario_interrupt_service() {
    let mut cpu = cpu_with_code(&[0x00]);
    cpu.ime = true;
    cpu.registers.sp = 0xD000;
    cpu.registers.pc = 0x1234;
    cpu.memory.write(0xFFFF, 0x01).unwrap(); // IE: VBlank
    cpu.memory.write(0xFF0F, 0x01).unwrap(); // IF: VBlank requested
    let cycles = cpu.step().unwrap();
    assert_eq!(cycles, 5);
    assert_eq!(cpu.registers.pc, 0x0040);
    assert_eq!(cpu.registers.sp, 0xCFFE);
    assert_eq!(cpu.memory.read(0xCFFF).unwrap(), 0x12); // PC high at SP-1
    assert_eq!(cpu.memory.read(0xCFFE).unwrap(), 0x34); // PC low at SP-2
    assert!(!cpu.ime);
    assert_eq!(cpu.memory.read(0xFF0F).unwrap(), 0x00); // IF bit cleared
}

#[test]
fn interrupt_priority_runs_low_bits_first() {
    let mut cpu = cpu_with_code(&[0x00]);
    cpu.ime = true;
    cpu.registers.sp = 0xD000;
    cpu.memory.write(0xFFFF, 0x1F).unwrap();
    cpu.memory.write(0xFF0F, 0x06).unwrap(); // LCD and Timer both pending
    cpu.step().unwrap();
    assert_eq!(cpu.registers.pc, 0x0048); // LCD (bit 1) wins over Timer
    assert_eq!(cpu.memory.read(0xFF0F).unwrap(), 0x04); // Timer still pending
}

#[test]
fn ei_takes_effect_after_next_instruction() {
    // EI; NOP; NOP with a VBlank interrupt already pending
    let mut cpu = cpu_with_code(&[0xFB, 0x00, 0x00]);
    cpu.registers.sp = 0xD000;
    cpu.memory.write(0xFFFF, 0x01).unwrap();
    cpu.memory.write(0xFF0F, 0x01).unwrap();
    cpu.step().unwrap(); // EI: latch set, IME still off
    assert!(!cpu.ime);
    cpu.step().unwrap(); // next instruction executes before IME bites
    assert!(cpu.ime);
    assert_eq!(cpu.registers.pc, 0x1002);
    let cycles = cpu.step().unwrap(); // now the interrupt is serviced
    assert_eq!(cycles, 5);
    assert_eq!(cpu.registers.pc, 0x0040);
}

#[test]
fn reti_restores_ime_immediately() {
    let mut cpu = cpu_with_code(&[0xD9]); // RETI at 0x1000
    cpu.registers.sp = 0xCFFE;
    cpu.memory.write(0xCFFE, 0x34).unwrap();
    cpu.memory.write(0xCFFF, 0x12).unwrap();
    cpu.memory.write(0xFFFF, 0x01).unwrap();
    cpu.memory.write(0xFF0F, 0x01).unwrap(); // VBlank already pending
    let cycles = cpu.step().unwrap();
    assert_eq!(cycles, 4);
    assert!(cpu.ime); // IME is back immediately, not after one instruction
    assert_eq!(cpu.registers.pc, 0x1234);
    assert_eq!(cpu.registers.sp, 0xD000);
    let cycles = cpu.step().unwrap(); // so the pending interrupt is serviced at once
    assert_eq!(cycles, 5);
    assert_eq!(cpu.registers.pc, 0x0040);
    assert!(!cpu.ime);
}

#[test]
fn halt_wakes_on_pending_interrupt() {
    let mut cpu = cpu_with_code(&[0x76, 0x00]);
    let cycles = cpu.step().unwrap();
    assert_eq!(cycles, 1);
    assert!(cpu.halted);
    // idles while nothing is pending
    assert_eq!(cpu.step().unwrap(), 1);
    assert_eq!(cpu.registers.pc, 0x1001);
    assert!(cpu.halted);
    // a pending (even masked by IME) interrupt wakes it
    cpu.memory.write(0xFFFF, 0x04).unwrap();
    cpu.memory.write(0xFF0F, 0x04).unwrap();
    cpu.step().unwrap();
    assert!(!cpu.halted);
    assert_eq!(cpu.registers.pc, 0x1002); // resumed after HALT, no service (IME off)
}

#[test]
fn ld_r8_r8_and_ld_hl_mem() {
    let mut cpu = fresh_cpu();
    cpu.registers.c = 0x5A;
    assert_eq!(cpu.decode(0x41).unwrap(), 1); // LD B, C
    assert_eq!(cpu.registers.b, 0x5A);
    cpu.registers.h = 0xC0;
    cpu.registers.l = 0x10;
    assert_eq!(cpu.decode(0x70).unwrap(), 2); // LD (HL), B
    assert_eq!(cpu.memory.read(0xC010).unwrap(), 0x5A);
    cpu.registers.d = 0;
    assert_eq!(cpu.decode(0x56).unwrap(), 2); // LD D, (HL)
    assert_eq!(cpu.registers.d, 0x5A);
}

#[test]
fn push_pop_round_trip() {
    let mut cpu = fresh_cpu();
    cpu.registers.sp = 0xD000;
    cpu.registers.b = 0x12;
    cpu.registers.c = 0x34;
    assert_eq!(cpu.decode(0xC5).unwrap(), 4); // PUSH BC
    assert_eq!(cpu.registers.sp, 0xCFFE);
    assert_eq!(cpu.decode(0xD1).unwrap(), 3); // POP DE
    assert_eq!(cpu.registers.sp, 0xD000);
    assert_eq!((cpu.registers.d, cpu.registers.e), (0x12, 0x34));
}

#[test]
fn call_and_ret() {
    // CALL 0x2000 at 0x1000; RET at 0x2000
    let mut cpu = cpu_with_code(&[0xCD, 0x00, 0x20]);
    cpu.registers.sp = 0xD000;
    let cycles = cpu.step().unwrap();
    assert_eq!(cycles, 6);
    assert_eq!(cpu.registers.pc, 0x2000);
    assert_eq!(cpu.registers.sp, 0xCFFE);
    // return address 0x1003 on the stack, little end at the lower address
    assert_eq!(cpu.memory.read(0xCFFE).unwrap(), 0x03);
    assert_eq!(cpu.memory.read(0xCFFF).unwrap(), 0x10);
    let cycles = cpu.decode(0xC9).unwrap();
    assert_eq!(cycles, 4);
    assert_eq!(cpu.registers.pc, 0x1003);
    assert_eq!(cpu.registers.sp, 0xD000);
}

#[test]
fn rst_jumps_to_vector() {
    let mut cpu = fresh_cpu();
    cpu.registers.sp = 0xD000;
    cpu.registers.pc = 0x4242;
    assert_eq!(cpu.decode(0xEF).unwrap(), 4); // RST 0x28
    assert_eq!(cpu.registers.pc, 0x0028);
}

#[test]
fn cb_bit_res_set_on_registers_and_memory() {
    let mut cpu = fresh_cpu();
    cpu.registers.pc = 0xC000;
    cpu.registers.a = 0x00;
    cpu.memory.write(0xC000, 0xFF).unwrap(); // SET 7, A
    assert_eq!(cpu.decode(0xCB).unwrap(), 2);
    assert_eq!(cpu.registers.a, 0x80);
    cpu.memory.write(0xC001, 0x7F).unwrap(); // BIT 7, A
    assert_eq!(cpu.decode(0xCB).unwrap(), 2);
    assert!(!cpu.registers.zf);
    cpu.memory.write(0xC002, 0xBF).unwrap(); // RES 7, A
    assert_eq!(cpu.decode(0xCB).unwrap(), 2);
    assert_eq!(cpu.registers.a, 0x00);
    // (HL) forms take four cycles
    cpu.registers.h = 0xC1;
    cpu.registers.l = 0x00;
    cpu.memory.write(0xC100, 0x01).unwrap();
    cpu.memory.write(0xC003, 0x06).unwrap(); // RLC (HL)
    assert_eq!(cpu.decode(0xCB).unwrap(), 4);
    assert_eq!(cpu.memory.read(0xC100).unwrap(), 0x02);
}

#[test]
fn ldh_and_indirect_loads() {
    let mut cpu = fresh_cpu();
    cpu.registers.pc = 0xC000;
    cpu.registers.a = 0x3C;
    cpu.memory.write(0xC000, 0x80).unwrap(); // offset: 0xFF80 (high RAM)
    assert_eq!(cpu.decode(0xE0).unwrap(), 3); // LDH (0x80), A
    assert_eq!(cpu.memory.read(0xFF80).unwrap(), 0x3C);
    cpu.registers.a = 0;
    cpu.memory.write(0xC001, 0x80).unwrap();
    assert_eq!(cpu.decode(0xF0).unwrap(), 3); // LDH A, (0x80)
    assert_eq!(cpu.registers.a, 0x3C);
    // LD (HL+), A steps HL
    cpu.registers.h = 0xC2;
    cpu.registers.l = 0xFF;
    cpu.registers.a = 0x77;
    assert_eq!(cpu.decode(0x22).unwrap(), 2);
    assert_eq!(cpu.memory.read(0xC2FF).unwrap(), 0x77);
    assert_eq!((cpu.registers.h, cpu.registers.l), (0xC3, 0x00));
}

#[test]
fn jr_with_negative_offset() {
    let mut cpu = fresh_cpu();
    cpu.registers.pc = 0xC010;
    cpu.memory.write(0xC010, 0xFC).unwrap(); // -4 as i8
    assert_eq!(cpu.decode(0x18).unwrap(), 3);
    assert_eq!(cpu.registers.pc, 0xC00D); // 0xC011 - 4
}

#[test]
fn ld_mem_u16_sp_stores_both_bytes() {
    let mut cpu = fresh_cpu();
    cpu.registers.pc = 0xC000;
    cpu.registers.sp = 0xBEEF;
    cpu.memory.write(0xC000, 0x00).unwrap();
    cpu.memory.write(0xC001, 0xD0).unwrap(); // target 0xD000
    assert_eq!(cpu.decode(0x08).unwrap(), 5);
    assert_eq!(cpu.memory.read(0xD000).unwrap(), 0xEF);
    assert_eq!(cpu.memory.read(0xD001).unwrap(), 0xBE);
}

#[test]
fn inc_and_dec_through_hl() {
    let mut cpu = fresh_cpu();
    cpu.registers.h = 0xC0;
    cpu.registers.l = 0x40;
    cpu.memory.write(0xC040, 0x0F).unwrap();
    assert_eq!(cpu.decode(0x34).unwrap(), 3); // INC (HL)
    assert_eq!(cpu.memory.read(0xC040).unwrap(), 0x10);
    assert!(cpu.registers.hf && !cpu.registers.nf && !cpu.registers.zf);
    assert_eq!(cpu.decode(0x35).unwrap(), 3); // DEC (HL)
    assert_eq!(cpu.memory.read(0xC040).unwrap(), 0x0F);
    assert!(cpu.registers.nf);
}

#[test]
fn push_pop_af_zeroes_low_flag_nibble() {
    let mut cpu = fresh_cpu();
    cpu.registers.sp = 0xD000;
    cpu.registers.b = 0x12;
    cpu.registers.c = 0xFF;
    cpu.decode(0xC5).unwrap(); // PUSH BC
    cpu.decode(0xF1).unwrap(); // POP AF
    assert_eq!(cpu.registers.a, 0x12);
    assert_eq!(cpu.registers.read_f(), 0xF0);
    cpu.decode(0xF5).unwrap(); // PUSH AF
    cpu.decode(0xC1).unwrap(); // POP BC
    assert_eq!((cpu.registers.b, cpu.registers.c), (0x12, 0xF0));
}

#[test]
fn illegal_opcodes_are_refused() {
    for b in [0xD3u8, 0xDB, 0xDD, 0xE3, 0xE4, 0xEB, 0xEC, 0xED, 0xF4, 0xFC, 0xFD] {
        let mut cpu = fresh_cpu();
        assert_eq!(cpu.decode(b), Err(EmuError::IllegalOpcode(b)));
    }
}

#[test]
fn machine_rejects_bad_boot_rom() {
    assert_eq!(CPU::new(vec![0u8; 0xFF]).err(), Some(EmuError::BootromSize));
    assert!(CPU::new(vec![0u8; 0x100]).is_ok());
}

#[test]
fn buttons_reach_the_joypad_through_the_machine() {
    let mut cpu = fresh_cpu();
    cpu.memory.write(0xFF00, 0x20).unwrap(); // select the direction pad
    cpu.set_button(Button::D);
    assert_eq!(cpu.memory.read(0xFF00).unwrap(), 0x27); // Down held low
    assert_eq!(cpu.memory.read(0xFF0F).unwrap() & 0x10, 0x10);
    cpu.unset_button(Button::D);
    assert_eq!(cpu.memory.read(0xFF00).unwrap(), 0x2F);
}

#[test]
fn frame_update_runs_to_completion() {
    let mut cpu = cpu_with_code(&[0xC3, 0x00, 0x10]); // JP 0x1000: spin in place
    cpu.memory.write(0xFF40, 0x80).unwrap(); // LCD on
    cpu.update().unwrap();
    assert_eq!(cpu.get_framebuffer().len(), 160 * 144 * 4);
    // a frame's worth of cycles passed through the pixel unit: VBlank was
    // requested along the way
    assert_eq!(cpu.memory.read(0xFF0F).unwrap() & 0x01, 0x01);
}
