use vstd::prelude::*;

verus! {

/// An 8-bit hardware register cell with bit-level accessors.
#[derive(Clone, Copy, PartialEq, Eq, Structural)]
pub struct Register(pub u8);

impl Register {
    pub fn new(value: u8) -> (r: Register)
        ensures
            r.0 == value,
    {
        Register(value)
    }

    pub fn to_u8(&self) -> (r: u8)
        ensures
            r == self.0,
    {
        self.0
    }

    pub fn write(&mut self, value: u8)
        ensures
            final(self).0 == value,
    {
        self.0 = value;
    }

    pub fn high_nibble(&self) -> (r: u8)
        ensures
            r == self.0 >> 4,
    {
        self.0 >> 4
    }

    pub fn low_nibble(&self) -> (r: u8)
        ensures
            r == self.0 & 0xF,
    {
        self.0 & 0xF
    }

    pub fn set_bit(&mut self, position: u8)
        requires
            position < 8,
        ensures
            final(self).0 == old(self).0 | (1u8 << position),
    {
        self.0 = self.0 | (1u8 << position);
    }

    pub fn unset_bit(&mut self, position: u8)
        requires
            position < 8,
        ensures
            final(self).0 == old(self).0 & !(1u8 << position),
    {
        self.0 = self.0 & !(1u8 << position);
    }

    pub fn at(&self, position: u8) -> (r: bool)
        requires
            position < 8,
        ensures
            r == (self.0 & (1u8 << position) != 0),
    {
        self.0 & (1u8 << position) != 0
    }
}

} // verus!
