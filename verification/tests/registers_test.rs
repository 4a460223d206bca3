use crab_gb::registers::{
    Condition, DoubleRegister, DoubleRegisterMem, DoubleRegisterStack, Flag, Register, Registers,
};

fn fresh() -> Registers {
    Registers::new()
}

#[test]
fn register_round_trip_every_selector() {
    let selectors = [
        Register::B,
        Register::C,
        Register::D,
        Register::E,
        Register::H,
        Register::L,
        Register::A,
    ];
    for &r in selectors.iter() {
        for v in [0u8, 1, 0x7F, 0x80, 0xFF] {
            let mut regs = fresh();
            regs.write_register(r, v);
            assert_eq!(regs.read_register(r), v);
        }
    }
}

#[test]
fn pair_round_trip_every_encoding() {
    let pairs = [
        DoubleRegister::BC,
        DoubleRegister::DE,
        DoubleRegister::HL,
        DoubleRegister::SP,
    ];
    for &rr in pairs.iter() {
        for v in [0u16, 1, 0x00FF, 0xABCD, 0xFFFF] {
            let mut regs = fresh();
            regs.write_double_register(rr, v);
            assert_eq!(regs.read_double_register(rr), v);
        }
    }
}

#[test]
fn stack_pair_round_trip_and_af_masks_low_nibble() {
    let pairs = [
        DoubleRegisterStack::BC,
        DoubleRegisterStack::DE,
        DoubleRegisterStack::HL,
    ];
    for &rr in pairs.iter() {
        let mut regs = fresh();
        regs.write_double_register_stack(rr, 0x1234);
        assert_eq!(regs.read_double_register_stack(rr), 0x1234);
    }
    let mut regs = fresh();
    regs.write_double_register_stack(DoubleRegisterStack::AF, 0x12FF);
    assert_eq!(regs.read_double_register_stack(DoubleRegisterStack::AF), 0x12F0);
    // F's low nibble always reads as zero
    assert_eq!(regs.read_f() & 0x0F, 0);
}

#[test]
fn hl_indirect_forms_step_hl() {
    let mut regs = fresh();
    regs.write_double_register(DoubleRegister::HL, 0xFFFF);
    assert_eq!(regs.read_double_register_mem(DoubleRegisterMem::HLI), 0xFFFF);
    assert_eq!(regs.read_double_register(DoubleRegister::HL), 0x0000);
    assert_eq!(regs.read_double_register_mem(DoubleRegisterMem::HLD), 0x0000);
    assert_eq!(regs.read_double_register(DoubleRegister::HL), 0xFFFF);
    regs.write_double_register(DoubleRegister::BC, 0x1234);
    assert_eq!(regs.read_double_register_mem(DoubleRegisterMem::BC), 0x1234);
    assert_eq!(regs.read_double_register(DoubleRegister::BC), 0x1234);
}

#[test]
fn flags_set_unset_toggle_write() {
    let mut regs = fresh();
    regs.set_flag(Flag::Z);
    regs.set_flag(Flag::C);
    assert!(regs.read_flag(Flag::Z));
    assert!(regs.read_flag(Flag::C));
    assert!(!regs.read_flag(Flag::N));
    assert_eq!(regs.read_f(), 0x90);
    regs.unset_flag(Flag::Z);
    assert!(!regs.read_flag(Flag::Z));
    regs.toggle_flag(Flag::H);
    assert!(regs.read_flag(Flag::H));
    regs.toggle_flag(Flag::H);
    assert!(!regs.read_flag(Flag::H));
    regs.write_flag(Flag::N, true);
    assert!(regs.read_flag(Flag::N));
    regs.write_flag(Flag::N, false);
    assert!(!regs.read_flag(Flag::N));
}

#[test]
fn conditions_follow_z_and_c() {
    let mut regs = fresh();
    assert!(regs.check_condition(Condition::NZ));
    assert!(!regs.check_condition(Condition::Z));
    assert!(regs.check_condition(Condition::NC));
    assert!(!regs.check_condition(Condition::C));
    regs.set_flag(Flag::Z);
    regs.set_flag(Flag::C);
    assert!(!regs.check_condition(Condition::NZ));
    assert!(regs.check_condition(Condition::Z));
    assert!(!regs.check_condition(Condition::NC));
    assert!(regs.check_condition(Condition::C));
}

#[test]
fn register_cell_bit_accessors() {
    let mut cell = crab_gb::register::Register::new(0xA5);
    assert_eq!(cell.to_u8(), 0xA5);
    assert_eq!(cell.high_nibble(), 0xA);
    assert_eq!(cell.low_nibble(), 0x5);
    assert!(cell.at(0));
    assert!(!cell.at(1));
    cell.set_bit(1);
    assert_eq!(cell.to_u8(), 0xA7);
    cell.unset_bit(7);
    assert_eq!(cell.to_u8(), 0x27);
    cell.write(0x00);
    assert_eq!(cell.to_u8(), 0x00);
}

#[test]
fn pc_and_sp_wrap() {
    let mut regs = fresh();
    regs.write_pc(0xFFFF);
    regs.increase_pc(1);
    assert_eq!(regs.read_pc(), 0);
    regs.write_pc(0x0000);
    regs.offset_pc(-1);
    assert_eq!(regs.read_pc(), 0xFFFF);
    regs.offset_pc(5);
    assert_eq!(regs.read_pc(), 0x0004);
    regs.write_double_register(DoubleRegister::SP, 0);
    regs.decrement_sp(1);
    assert_eq!(regs.read_double_register(DoubleRegister::SP), 0xFFFF);
    regs.increase_sp(1);
    assert_eq!(regs.read_double_register(DoubleRegister::SP), 0);
}
