use vstd::prelude::*;

use crate::err::EmuError;
use crate::register::Register;

verus! {

/// The eight buttons of the pad. Bits 0..3 of the pressed mask are the
/// direction pad (Right, Left, Up, Down), bits 4..7 the action group
/// (A, B, Select, Start).
#[derive(Clone, Copy, PartialEq, Eq, Structural)]
pub enum Button {
    R,
    L,
    U,
    D,
    A,
    B,
    SEL,
    STA,
}

impl Button {
    /// The button's bit position in the pressed mask.
    pub open spec fn spec_index(self) -> u8 {
        match self {
            Button::R => 0,
            Button::L => 1,
            Button::U => 2,
            Button::D => 3,
            Button::A => 4,
            Button::B => 5,
            Button::SEL => 6,
            Button::STA => 7,
        }
    }

    pub fn index(&self) -> (r: u8)
        ensures
            r == self.spec_index(),
    {
        match self {
            Button::R => 0,
            Button::L => 1,
            Button::U => 2,
            Button::D => 3,
            Button::A => 4,
            Button::B => 5,
            Button::SEL => 6,
            Button::STA => 7,
        }
    }

    /// Whether the button sits in the direction-pad column.
    pub open spec fn is_dpad(self) -> bool {
        self.spec_index() < 4
    }
}

/// Which column of the button matrix the register currently selects.
#[derive(Clone, Copy, PartialEq, Eq, Structural)]
pub enum Column {
    DPAD,
    BUTTONS,
    NONE,
}

/// The button matrix behind the 0xFF00 register. Button state is held
/// active-low: a zero bit means pressed.
pub struct Joypad {
    pub buttons: Register,
    pub column: Column,
}

impl Joypad {
    /// Whether the selected column contains this button.
    pub open spec fn column_selects(self, button: Button) -> bool {
        match self.column {
            Column::DPAD => button.is_dpad(),
            Column::BUTTONS => !button.is_dpad(),
            Column::NONE => false,
        }
    }

    /// The value a read of 0xFF00 returns: the selector echoed in the upper
    /// nibble, the selected column's active-low button lines in the lower.
    pub open spec fn spec_register(self) -> u8 {
        match self.column {
            Column::DPAD => 0x20u8 | (self.buttons.0 & 0xF),
            Column::BUTTONS => 0x10u8 | (self.buttons.0 >> 4),
            Column::NONE => 0x3Fu8,
        }
    }

    pub fn new() -> (r: Joypad)
        ensures
            r.buttons.0 == 0xFF,
            r.column == Column::NONE,
    {
        Joypad { buttons: Register::new(0xFF), column: Column::NONE }
    }

    pub fn read_register(&self) -> (r: u8)
        ensures
            r == self.spec_register(),
    {
        match self.column {
            Column::DPAD => 0x20 | self.buttons.low_nibble(),
            Column::BUTTONS => 0x10 | self.buttons.high_nibble(),
            Column::NONE => 0x3F,
        }
    }

    /// Writes the column selector: bits 5 and 4 are active-low select lines,
    /// so `10` picks the direction pad, `01` the action buttons and `11`
    /// neither. Driving both lines low at once is undefined and is refused.
    pub fn write_register(&mut self, value: u8) -> (r: Result<(), EmuError>)
        ensures
            r is Ok <==> (value >> 4) & 3 != 0,
            final(self).buttons == old(self).buttons,
            r is Ok ==> final(self).column == (if (value >> 4) & 3 == 1 {
                Column::BUTTONS
            } else if (value >> 4) & 3 == 2 {
                Column::DPAD
            } else {
                Column::NONE
            }),
            r is Err ==> *final(self) == *old(self) && r == Err::<(), EmuError>(
                EmuError::JoypadSelect(value),
            ),
    {
        let select = (value >> 4) & 3;
        proof {
            assert((value >> 4) & 3 < 4) by (bit_vector);
        }
        if select == 1 {
            self.column = Column::BUTTONS;
            Ok(())
        } else if select == 2 {
            self.column = Column::DPAD;
            Ok(())
        } else if select == 3 {
            self.column = Column::NONE;
            Ok(())
        } else {
            Err(EmuError::JoypadSelect(value))
        }
    }

    /// Marks a button pressed (its bit goes low). Returns true when the press
    /// is new and the button's column is currently selected; the caller then
    /// raises the Joypad interrupt.
    pub fn set_button(&mut self, button: Button) -> (request: bool)
        ensures
            final(self).buttons.0 == old(self).buttons.0 & !(1u8 << button.spec_index()),
            final(self).column == old(self).column,
            request == (old(self).buttons.0 & (1u8 << button.spec_index()) != 0
                && old(self).column_selects(button)),
    {
        let old_value = self.buttons;
        let position = button.index();
        self.buttons.unset_bit(position);

        proof {
            let b = old_value.0;
            let i = position;
            assert((b & !(1u8 << i) != b) == (b & (1u8 << i) != 0)) by (bit_vector)
                requires
                    i < 8,
            ;
        }

        let changed = old_value.0 != self.buttons.0;
        if changed {
            let is_dpad = match button {
                Button::R | Button::L | Button::U | Button::D => true,
                _ => false,
            };
            match self.column {
                Column::DPAD => is_dpad,
                Column::BUTTONS => !is_dpad,
                Column::NONE => false,
            }
        } else {
            false
        }
    }

    /// Marks a button released (its bit goes high).
    pub fn unset_button(&mut self, button: Button)
        ensures
            final(self).buttons.0 == old(self).buttons.0 | (1u8 << button.spec_index()),
            final(self).column == old(self).column,
    {
        self.buttons.set_bit(button.index());
    }
}

} // verus!
