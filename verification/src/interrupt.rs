use vstd::prelude::*;

use crate::register::Register;

verus! {

/// The five interrupt sources, in priority order: bit 0 is VBlank, bit 1 is
/// LCD-STAT, bit 2 is Timer, bit 3 is Serial, bit 4 is Joypad.
#[derive(Clone, Copy, PartialEq, Eq, Structural)]
pub enum InterruptHandler {
    VBlank,
    LCD,
    Timer,
    Serial,
    Joypad,
}

impl InterruptHandler {
    /// The source's bit position in IE and IF, which is also its priority.
    pub open spec fn spec_index(self) -> u8 {
        match self {
            InterruptHandler::VBlank => 0,
            InterruptHandler::LCD => 1,
            InterruptHandler::Timer => 2,
            InterruptHandler::Serial => 3,
            InterruptHandler::Joypad => 4,
        }
    }

    pub fn index(&self) -> (r: u8)
        ensures
            r == self.spec_index(),
    {
        match self {
            InterruptHandler::VBlank => 0,
            InterruptHandler::LCD => 1,
            InterruptHandler::Timer => 2,
            InterruptHandler::Serial => 3,
            InterruptHandler::Joypad => 4,
        }
    }

    /// The handler address the CPU jumps to when servicing this source.
    pub open spec fn spec_vector(self) -> u16 {
        match self {
            InterruptHandler::VBlank => 0x40,
            InterruptHandler::LCD => 0x48,
            InterruptHandler::Timer => 0x50,
            InterruptHandler::Serial => 0x58,
            InterruptHandler::Joypad => 0x60,
        }
    }
}

/// The interrupt controller: the IE (0xFFFF) and IF (0xFF0F) registers.
/// Bits 0..4 carry the five sources; the upper bits are plain storage.
pub struct Interrupt {
    pub interrupt_enable: Register,
    pub interrupt_flag: Register,
}

impl Interrupt {
    pub fn new() -> (r: Interrupt)
        ensures
            r.interrupt_enable.0 == 0,
            r.interrupt_flag.0 == 0,
    {
        Interrupt { interrupt_enable: Register::new(0), interrupt_flag: Register::new(0) }
    }

    pub fn read_interrupt_enable(&self) -> (r: u8)
        ensures
            r == self.interrupt_enable.0,
    {
        self.interrupt_enable.to_u8()
    }

    pub fn read_interrupt_flag(&self) -> (r: u8)
        ensures
            r == self.interrupt_flag.0,
    {
        self.interrupt_flag.to_u8()
    }

    pub fn write_interrupt_enable(&mut self, value: u8)
        ensures
            final(self).interrupt_enable.0 == value,
            final(self).interrupt_flag == old(self).interrupt_flag,
    {
        self.interrupt_enable.write(value);
    }

    pub fn write_interrupt_flag(&mut self, value: u8)
        ensures
            final(self).interrupt_flag.0 == value,
            final(self).interrupt_enable == old(self).interrupt_enable,
    {
        self.interrupt_flag.write(value);
    }

    pub fn set_if_bit(&mut self, interrupt: InterruptHandler)
        ensures
            final(self).interrupt_flag.0 == old(self).interrupt_flag.0 | (1u8
                << interrupt.spec_index()),
            final(self).interrupt_enable == old(self).interrupt_enable,
    {
        self.interrupt_flag.set_bit(interrupt.index());
    }

    pub fn unset_if_bit(&mut self, interrupt: InterruptHandler)
        ensures
            final(self).interrupt_flag.0 == old(self).interrupt_flag.0 & !(1u8
                << interrupt.spec_index()),
            final(self).interrupt_enable == old(self).interrupt_enable,
    {
        self.interrupt_flag.unset_bit(interrupt.index());
    }

    pub fn is_enabled(&self, interrupt: InterruptHandler) -> (r: bool)
        ensures
            r == (self.interrupt_enable.0 & (1u8 << interrupt.spec_index()) != 0),
    {
        self.interrupt_enable.at(interrupt.index())
    }

    pub fn is_requested(&self, interrupt: InterruptHandler) -> (r: bool)
        ensures
            r == (self.interrupt_flag.0 & (1u8 << interrupt.spec_index()) != 0),
    {
        self.interrupt_flag.at(interrupt.index())
    }

    pub fn is_enabled_and_requested(&self, interrupt: InterruptHandler) -> (r: bool)
        ensures
            r == (self.interrupt_enable.0 & (1u8 << interrupt.spec_index()) != 0
                && self.interrupt_flag.0 & (1u8 << interrupt.spec_index()) != 0),
    {
        self.is_enabled(interrupt) && self.is_requested(interrupt)
    }

    /// True when at least one source is both enabled and requested.
    pub open spec fn spec_pending(self) -> bool {
        self.interrupt_enable.0 & self.interrupt_flag.0 != 0
    }

    pub fn is_pending(&self) -> (r: bool)
        ensures
            r == self.spec_pending(),
    {
        self.interrupt_enable.to_u8() & self.interrupt_flag.to_u8() != 0
    }
}

} // verus!
