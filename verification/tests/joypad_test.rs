use crab_gb::err::EmuError;
use crab_gb::interrupt::{Interrupt, InterruptHandler};
use crab_gb::joypad::{Button, Joypad};

#[test]
fn unselected_register_reads_all_high() {
    let pad = Joypad::new();
    assert_eq!(pad.read_register(), 0x3F);
}

#[test]
fn press_pulls_line_low_in_selected_column() {
    let mut pad = Joypad::new();
    pad.write_register(0x20).unwrap(); // select DPAD
    let request = pad.set_button(Button::R);
    assert!(request);
    assert_eq!(pad.read_register(), 0x2E); // bit 0 low
    // pressing the same button again is not a new press
    assert!(!pad.set_button(Button::R));
    pad.unset_button(Button::R);
    assert_eq!(pad.read_register(), 0x2F);
}

#[test]
fn press_in_unselected_column_requests_nothing() {
    let mut pad = Joypad::new();
    pad.write_register(0x20).unwrap(); // DPAD column
    assert!(!pad.set_button(Button::A)); // action button, not selected
    assert_eq!(pad.read_register(), 0x2F); // DPAD lines unaffected
    pad.write_register(0x10).unwrap(); // BUTTONS column
    assert_eq!(pad.read_register(), 0x1E); // A is held low
}

#[test]
fn press_with_no_column_never_requests() {
    let mut pad = Joypad::new();
    assert!(!pad.set_button(Button::STA));
    assert_eq!(pad.read_register(), 0x3F);
}

#[test]
fn both_select_lines_low_is_refused() {
    let mut pad = Joypad::new();
    assert_eq!(pad.write_register(0x0F), Err(EmuError::JoypadSelect(0x0F)));
}

#[test]
fn interrupt_controller_bits() {
    let mut ic = Interrupt::new();
    ic.write_interrupt_enable(0x05);
    ic.set_if_bit(InterruptHandler::Timer);
    assert_eq!(ic.read_interrupt_flag(), 0x04);
    assert!(ic.is_enabled(InterruptHandler::Timer));
    assert!(ic.is_requested(InterruptHandler::Timer));
    assert!(ic.is_enabled_and_requested(InterruptHandler::Timer));
    assert!(!ic.is_enabled_and_requested(InterruptHandler::VBlank));
    assert!(ic.is_pending());
    ic.unset_if_bit(InterruptHandler::Timer);
    assert!(!ic.is_pending());
    ic.set_if_bit(InterruptHandler::LCD);
    assert!(!ic.is_pending()); // LCD requested but not enabled
    assert!(ic.is_requested(InterruptHandler::LCD));
}

#[test]
fn button_press_raises_joypad_interrupt_through_the_bus() {
    let mut mem = crab_gb::memory::Memory::new(vec![0u8; 0x100]).unwrap();
    mem.write(0xFF00, 0x10).unwrap(); // select action buttons
    mem.set_button(Button::B);
    assert_eq!(mem.read(0xFF0F).unwrap() & 0x10, 0x10);
    assert_eq!(mem.read(0xFF00).unwrap(), 0x1D); // B line low
    mem.unset_button(Button::B);
    assert_eq!(mem.read(0xFF00).unwrap(), 0x1F);
}
