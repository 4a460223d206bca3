//! A cycle-approximate emulator core for the original DMG handheld console:
//! CPU, memory bus, pixel unit, timer, interrupt controller and joypad,
//! stepped in lockstep one frame at a time.

pub mod alu;
pub mod cpu;
pub mod err;
pub mod gpu;
pub mod interrupt;
pub mod joypad;
pub mod memory;
pub mod register;
pub mod registers;
pub mod timer;
