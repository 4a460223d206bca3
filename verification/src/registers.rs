use vstd::prelude::*;

verus! {

/// The low byte of a 16-bit value.
pub open spec fn lo8(v: u16) -> u8 {
    v as u8
}

/// The high byte of a 16-bit value.
pub open spec fn hi8(v: u16) -> u8 {
    (v >> 8) as u8
}

/// Two bytes joined into a 16-bit value, high byte first.
pub open spec fn concat16(hi: u8, lo: u8) -> u16 {
    ((hi as u16) << 8) | (lo as u16)
}

/// Splitting a 16-bit value and joining the halves again is the identity,
/// and a joined value splits back into its two bytes.
pub proof fn lemma_concat16(v: u16, hi: u8, lo: u8)
    by (bit_vector)
    ensures
        concat16(hi8(v), lo8(v)) == v,
        hi8(concat16(hi, lo)) == hi,
        lo8(concat16(hi, lo)) == lo,
        concat16(hi, lo) == hi * 256 + lo,
{
}

/// The 3-bit register selectors of the opcode encoding. `HL_MEM` is the
/// placeholder for the memory operand `(HL)`: it names no register, and
/// callers that meet it go through the bus instead.
#[allow(non_camel_case_types)]
#[derive(Clone, Copy, PartialEq, Eq, Structural)]
pub enum Register {
    B,
    C,
    D,
    E,
    H,
    L,
    HL_MEM,
    A,
}

impl Register {
    /// The selector encoded by a 3-bit field.
    pub open spec fn spec_from_bits(bits: u8) -> Register {
        if bits == 0 {
            Register::B
        } else if bits == 1 {
            Register::C
        } else if bits == 2 {
            Register::D
        } else if bits == 3 {
            Register::E
        } else if bits == 4 {
            Register::H
        } else if bits == 5 {
            Register::L
        } else if bits == 6 {
            Register::HL_MEM
        } else {
            Register::A
        }
    }

    pub fn from_bits(bits: u8) -> (r: Register)
        ensures
            r == Register::spec_from_bits(bits),
    {
        if bits == 0 {
            Register::B
        } else if bits == 1 {
            Register::C
        } else if bits == 2 {
            Register::D
        } else if bits == 3 {
            Register::E
        } else if bits == 4 {
            Register::H
        } else if bits == 5 {
            Register::L
        } else if bits == 6 {
            Register::HL_MEM
        } else {
            Register::A
        }
    }
}

/// The 2-bit pair selectors used by loads, 16-bit arithmetic and jumps.
#[derive(Clone, Copy, PartialEq, Eq, Structural)]
pub enum DoubleRegister {
    BC,
    DE,
    HL,
    SP,
}

impl DoubleRegister {
    pub open spec fn spec_from_bits(bits: u8) -> DoubleRegister {
        if bits == 0 {
            DoubleRegister::BC
        } else if bits == 1 {
            DoubleRegister::DE
        } else if bits == 2 {
            DoubleRegister::HL
        } else {
            DoubleRegister::SP
        }
    }

    pub fn from_bits(bits: u8) -> (r: DoubleRegister)
        ensures
            r == DoubleRegister::spec_from_bits(bits),
    {
        if bits == 0 {
            DoubleRegister::BC
        } else if bits == 1 {
            DoubleRegister::DE
        } else if bits == 2 {
            DoubleRegister::HL
        } else {
            DoubleRegister::SP
        }
    }
}

/// The 2-bit pair selectors used by PUSH and POP: AF takes SP's slot.
#[derive(Clone, Copy, PartialEq, Eq, Structural)]
pub enum DoubleRegisterStack {
    BC,
    DE,
    HL,
    AF,
}

impl DoubleRegisterStack {
    pub open spec fn spec_from_bits(bits: u8) -> DoubleRegisterStack {
        if bits == 0 {
            DoubleRegisterStack::BC
        } else if bits == 1 {
            DoubleRegisterStack::DE
        } else if bits == 2 {
            DoubleRegisterStack::HL
        } else {
            DoubleRegisterStack::AF
        }
    }

    pub fn from_bits(bits: u8) -> (r: DoubleRegisterStack)
        ensures
            r == DoubleRegisterStack::spec_from_bits(bits),
    {
        if bits == 0 {
            DoubleRegisterStack::BC
        } else if bits == 1 {
            DoubleRegisterStack::DE
        } else if bits == 2 {
            DoubleRegisterStack::HL
        } else {
            DoubleRegisterStack::AF
        }
    }
}

/// The 2-bit pair selectors of the indirect load forms: `HLI` and `HLD`
/// address through HL and then step it up or down.
#[derive(Clone, Copy, PartialEq, Eq, Structural)]
pub enum DoubleRegisterMem {
    BC,
    DE,
    HLI,
    HLD,
}

impl DoubleRegisterMem {
    pub open spec fn spec_from_bits(bits: u8) -> DoubleRegisterMem {
        if bits == 0 {
            DoubleRegisterMem::BC
        } else if bits == 1 {
            DoubleRegisterMem::DE
        } else if bits == 2 {
            DoubleRegisterMem::HLI
        } else {
            DoubleRegisterMem::HLD
        }
    }

    pub fn from_bits(bits: u8) -> (r: DoubleRegisterMem)
        ensures
            r == DoubleRegisterMem::spec_from_bits(bits),
    {
        if bits == 0 {
            DoubleRegisterMem::BC
        } else if bits == 1 {
            DoubleRegisterMem::DE
        } else if bits == 2 {
            DoubleRegisterMem::HLI
        } else {
            DoubleRegisterMem::HLD
        }
    }
}

/// The four condition flags packed into the top nibble of F.
#[derive(Clone, Copy, PartialEq, Eq, Structural)]
pub enum Flag {
    Z,
    N,
    H,
    C,
}

/// The condition codes of conditional jumps, calls and returns.
#[derive(Clone, Copy, PartialEq, Eq, Structural)]
pub enum Condition {
    NZ,
    Z,
    NC,
    C,
}

impl Condition {
    pub open spec fn spec_from_bits(bits: u8) -> Condition {
        if bits == 0 {
            Condition::NZ
        } else if bits == 1 {
            Condition::Z
        } else if bits == 2 {
            Condition::NC
        } else {
            Condition::C
        }
    }

    pub fn from_bits(bits: u8) -> (r: Condition)
        ensures
            r == Condition::spec_from_bits(bits),
    {
        if bits == 0 {
            Condition::NZ
        } else if bits == 1 {
            Condition::Z
        } else if bits == 2 {
            Condition::NC
        } else {
            Condition::C
        }
    }
}

/// The CPU register file: seven 8-bit general registers, the four condition
/// flags (the meaningful top nibble of F), and the 16-bit SP and PC.
pub struct Registers {
    pub b: u8,
    pub c: u8,
    pub d: u8,
    pub e: u8,
    pub h: u8,
    pub l: u8,
    pub a: u8,
    pub zf: bool,
    pub nf: bool,
    pub hf: bool,
    pub cf: bool,
    pub sp: u16,
    pub pc: u16,
}

impl Registers {
    /// The F register byte: Z, N, H, C in bits 7..4, bits 3..0 always zero.
    pub open spec fn f_byte(self) -> u8 {
        (if self.zf {
            0x80u8
        } else {
            0u8
        }) | (if self.nf {
            0x40u8
        } else {
            0u8
        }) | (if self.hf {
            0x20u8
        } else {
            0u8
        }) | (if self.cf {
            0x10u8
        } else {
            0u8
        })
    }

    pub open spec fn spec_bc(self) -> u16 {
        concat16(self.b, self.c)
    }

    pub open spec fn spec_de(self) -> u16 {
        concat16(self.d, self.e)
    }

    pub open spec fn spec_hl(self) -> u16 {
        concat16(self.h, self.l)
    }

    pub open spec fn spec_af(self) -> u16 {
        concat16(self.a, self.f_byte())
    }

    /// The value a single-register selector reads (zero for the `(HL)`
    /// placeholder, which is never read as a register).
    pub open spec fn spec_read_register(self, r: Register) -> u8 {
        match r {
            Register::B => self.b,
            Register::C => self.c,
            Register::D => self.d,
            Register::E => self.e,
            Register::H => self.h,
            Register::L => self.l,
            Register::HL_MEM => 0,
            Register::A => self.a,
        }
    }

    /// The register file after a single-register write (unchanged for the
    /// `(HL)` placeholder, which is never written as a register).
    pub open spec fn spec_write_register(self, r: Register, value: u8) -> Registers {
        match r {
            Register::B => Registers { b: value, ..self },
            Register::C => Registers { c: value, ..self },
            Register::D => Registers { d: value, ..self },
            Register::E => Registers { e: value, ..self },
            Register::H => Registers { h: value, ..self },
            Register::L => Registers { l: value, ..self },
            Register::HL_MEM => self,
            Register::A => Registers { a: value, ..self },
        }
    }

    pub open spec fn spec_pair(self, rr: DoubleRegister) -> u16 {
        match rr {
            DoubleRegister::BC => self.spec_bc(),
            DoubleRegister::DE => self.spec_de(),
            DoubleRegister::HL => self.spec_hl(),
            DoubleRegister::SP => self.sp,
        }
    }

    pub open spec fn spec_write_pair(self, rr: DoubleRegister, value: u16) -> Registers {
        match rr {
            DoubleRegister::BC => Registers { b: hi8(value), c: lo8(value), ..self },
            DoubleRegister::DE => Registers { d: hi8(value), e: lo8(value), ..self },
            DoubleRegister::HL => Registers { h: hi8(value), l: lo8(value), ..self },
            DoubleRegister::SP => Registers { sp: value, ..self },
        }
    }

    pub open spec fn spec_pair_stack(self, rr: DoubleRegisterStack) -> u16 {
        match rr {
            DoubleRegisterStack::BC => self.spec_bc(),
            DoubleRegisterStack::DE => self.spec_de(),
            DoubleRegisterStack::HL => self.spec_hl(),
            DoubleRegisterStack::AF => self.spec_af(),
        }
    }

    /// The register file after a stack-form pair write. An AF write fills
    /// the flags from bits 7..4 of the low byte, so the low nibble of F
    /// stays zero.
    pub open spec fn spec_write_pair_stack(self, rr: DoubleRegisterStack, value: u16) -> Registers {
        match rr {
            DoubleRegisterStack::BC => Registers { b: hi8(value), c: lo8(value), ..self },
            DoubleRegisterStack::DE => Registers { d: hi8(value), e: lo8(value), ..self },
            DoubleRegisterStack::HL => Registers { h: hi8(value), l: lo8(value), ..self },
            DoubleRegisterStack::AF => Registers {
                a: hi8(value),
                zf: lo8(value) & 0x80 != 0,
                nf: lo8(value) & 0x40 != 0,
                hf: lo8(value) & 0x20 != 0,
                cf: lo8(value) & 0x10 != 0,
                ..self
            },
        }
    }

    pub open spec fn spec_check_condition(self, cond: Condition) -> bool {
        match cond {
            Condition::NZ => !self.zf,
            Condition::Z => self.zf,
            Condition::NC => !self.cf,
            Condition::C => self.cf,
        }
    }

    /// The cleared register file the machine starts with.
    pub open spec fn spec_new() -> Registers {
        Registers {
            b: 0,
            c: 0,
            d: 0,
            e: 0,
            h: 0,
            l: 0,
            a: 0,
            zf: false,
            nf: false,
            hf: false,
            cf: false,
            sp: 0,
            pc: 0,
        }
    }

    pub fn new() -> (r: Registers)
        ensures
            r == Registers::spec_new(),
    {
        Registers {
            b: 0,
            c: 0,
            d: 0,
            e: 0,
            h: 0,
            l: 0,
            a: 0,
            zf: false,
            nf: false,
            hf: false,
            cf: false,
            sp: 0,
            pc: 0,
        }
    }

    pub fn read_register(&self, r: Register) -> (value: u8)
        requires
            r != Register::HL_MEM,
        ensures
            value == self.spec_read_register(r),
    {
        match r {
            Register::B => self.b,
            Register::C => self.c,
            Register::D => self.d,
            Register::E => self.e,
            Register::H => self.h,
            Register::L => self.l,
            Register::A => self.a,
            Register::HL_MEM => 0,
        }
    }

    pub fn write_register(&mut self, r: Register, value: u8)
        requires
            r != Register::HL_MEM,
        ensures
            *final(self) == old(self).spec_write_register(r, value),
    {
        match r {
            Register::B => self.b = value,
            Register::C => self.c = value,
            Register::D => self.d = value,
            Register::E => self.e = value,
            Register::H => self.h = value,
            Register::L => self.l = value,
            Register::A => self.a = value,
            Register::HL_MEM => {},
        }
    }

    pub fn read_double_register(&self, rr: DoubleRegister) -> (value: u16)
        ensures
            value == self.spec_pair(rr),
    {
        match rr {
            DoubleRegister::BC => (self.b as u16) << 8 | self.c as u16,
            DoubleRegister::DE => (self.d as u16) << 8 | self.e as u16,
            DoubleRegister::HL => (self.h as u16) << 8 | self.l as u16,
            DoubleRegister::SP => self.sp,
        }
    }

    /// The F byte a read of AF sees, packed from the four flag bits.
    pub fn read_f(&self) -> (value: u8)
        ensures
            value == self.f_byte(),
    {
        (if self.zf {
            0x80u8
        } else {
            0u8
        }) | (if self.nf {
            0x40u8
        } else {
            0u8
        }) | (if self.hf {
            0x20u8
        } else {
            0u8
        }) | (if self.cf {
            0x10u8
        } else {
            0u8
        })
    }

    /// Fills the flags from bits 7..4 of a byte; bits 3..0 are dropped.
    pub fn write_f(&mut self, value: u8)
        ensures
            *final(self) == (Registers {
                zf: value & 0x80 != 0,
                nf: value & 0x40 != 0,
                hf: value & 0x20 != 0,
                cf: value & 0x10 != 0,
                ..*old(self)
            }),
    {
        self.zf = value & 0x80 != 0;
        self.nf = value & 0x40 != 0;
        self.hf = value & 0x20 != 0;
        self.cf = value & 0x10 != 0;
    }

    pub fn read_double_register_stack(&self, rr: DoubleRegisterStack) -> (value: u16)
        ensures
            value == self.spec_pair_stack(rr),
    {
        match rr {
            DoubleRegisterStack::BC => (self.b as u16) << 8 | self.c as u16,
            DoubleRegisterStack::DE => (self.d as u16) << 8 | self.e as u16,
            DoubleRegisterStack::HL => (self.h as u16) << 8 | self.l as u16,
            DoubleRegisterStack::AF => (self.a as u16) << 8 | self.read_f() as u16,
        }
    }

    /// Reads the pair for an indirect memory form; the `HL+` and `HL-`
    /// forms hand back HL and then step it with 16-bit wrap.
    pub fn read_double_register_mem(&mut self, rr: DoubleRegisterMem) -> (value: u16)
        ensures
            value == old(self).spec_pair_mem_value(rr),
            *final(self) == old(self).spec_pair_mem_after(rr),
    {
        match rr {
            DoubleRegisterMem::BC => (self.b as u16) << 8 | self.c as u16,
            DoubleRegisterMem::DE => (self.d as u16) << 8 | self.e as u16,
            DoubleRegisterMem::HLI => {
                let ret: u16 = (self.h as u16) << 8 | self.l as u16;
                let inc: u16 = ret.wrapping_add(1);
                self.h = (inc >> 8) as u8;
                self.l = inc as u8;
                ret
            },
            DoubleRegisterMem::HLD => {
                let ret: u16 = (self.h as u16) << 8 | self.l as u16;
                let dec: u16 = ret.wrapping_sub(1);
                self.h = (dec >> 8) as u8;
                self.l = dec as u8;
                ret
            },
        }
    }

    /// The address an indirect memory form addresses through.
    pub open spec fn spec_pair_mem_value(self, rr: DoubleRegisterMem) -> u16 {
        match rr {
            DoubleRegisterMem::BC => self.spec_bc(),
            DoubleRegisterMem::DE => self.spec_de(),
            DoubleRegisterMem::HLI => self.spec_hl(),
            DoubleRegisterMem::HLD => self.spec_hl(),
        }
    }

    /// The register file after an indirect memory form has been read.
    pub open spec fn spec_pair_mem_after(self, rr: DoubleRegisterMem) -> Registers {
        match rr {
            DoubleRegisterMem::BC => self,
            DoubleRegisterMem::DE => self,
            DoubleRegisterMem::HLI => {
                let inc = vstd::wrapping::u16_specs::wrapping_add(self.spec_hl(), 1);
                Registers { h: hi8(inc), l: lo8(inc), ..self }
            },
            DoubleRegisterMem::HLD => {
                let dec = vstd::wrapping::u16_specs::wrapping_sub(self.spec_hl(), 1);
                Registers { h: hi8(dec), l: lo8(dec), ..self }
            },
        }
    }

    pub fn write_double_register(&mut self, rr: DoubleRegister, value: u16)
        ensures
            *final(self) == old(self).spec_write_pair(rr, value),
    {
        match rr {
            DoubleRegister::BC => {
                self.b = (value >> 8) as u8;
                self.c = value as u8;
            },
            DoubleRegister::DE => {
                self.d = (value >> 8) as u8;
                self.e = value as u8;
            },
            DoubleRegister::HL => {
                self.h = (value >> 8) as u8;
                self.l = value as u8;
            },
            DoubleRegister::SP => {
                self.sp = value;
            },
        }
    }

    pub fn write_double_register_stack(&mut self, rr: DoubleRegisterStack, value: u16)
        ensures
            *final(self) == old(self).spec_write_pair_stack(rr, value),
    {
        match rr {
            DoubleRegisterStack::BC => {
                self.b = (value >> 8) as u8;
                self.c = value as u8;
            },
            DoubleRegisterStack::DE => {
                self.d = (value >> 8) as u8;
                self.e = value as u8;
            },
            DoubleRegisterStack::HL => {
                self.h = (value >> 8) as u8;
                self.l = value as u8;
            },
            DoubleRegisterStack::AF => {
                self.a = (value >> 8) as u8;
                self.write_f(value as u8);
            },
        }
    }

    pub fn read_flag(&self, flag: Flag) -> (r: bool)
        ensures
            r == match flag {
                Flag::Z => self.zf,
                Flag::N => self.nf,
                Flag::H => self.hf,
                Flag::C => self.cf,
            },
    {
        match flag {
            Flag::Z => self.zf,
            Flag::N => self.nf,
            Flag::H => self.hf,
            Flag::C => self.cf,
        }
    }

    pub fn set_flag(&mut self, flag: Flag)
        ensures
            *final(self) == match flag {
                Flag::Z => Registers { zf: true, ..*old(self) },
                Flag::N => Registers { nf: true, ..*old(self) },
                Flag::H => Registers { hf: true, ..*old(self) },
                Flag::C => Registers { cf: true, ..*old(self) },
            },
    {
        match flag {
            Flag::Z => self.zf = true,
            Flag::N => self.nf = true,
            Flag::H => self.hf = true,
            Flag::C => self.cf = true,
        }
    }

    pub fn unset_flag(&mut self, flag: Flag)
        ensures
            *final(self) == match flag {
                Flag::Z => Registers { zf: false, ..*old(self) },
                Flag::N => Registers { nf: false, ..*old(self) },
                Flag::H => Registers { hf: false, ..*old(self) },
                Flag::C => Registers { cf: false, ..*old(self) },
            },
    {
        match flag {
            Flag::Z => self.zf = false,
            Flag::N => self.nf = false,
            Flag::H => self.hf = false,
            Flag::C => self.cf = false,
        }
    }

    pub fn toggle_flag(&mut self, flag: Flag)
        ensures
            *final(self) == match flag {
                Flag::Z => Registers { zf: !old(self).zf, ..*old(self) },
                Flag::N => Registers { nf: !old(self).nf, ..*old(self) },
                Flag::H => Registers { hf: !old(self).hf, ..*old(self) },
                Flag::C => Registers { cf: !old(self).cf, ..*old(self) },
            },
    {
        match flag {
            Flag::Z => self.zf = !self.zf,
            Flag::N => self.nf = !self.nf,
            Flag::H => self.hf = !self.hf,
            Flag::C => self.cf = !self.cf,
        }
    }

    pub fn write_flag(&mut self, flag: Flag, value: bool)
        ensures
            *final(self) == match flag {
                Flag::Z => Registers { zf: value, ..*old(self) },
                Flag::N => Registers { nf: value, ..*old(self) },
                Flag::H => Registers { hf: value, ..*old(self) },
                Flag::C => Registers { cf: value, ..*old(self) },
            },
    {
        match flag {
            Flag::Z => self.zf = value,
            Flag::N => self.nf = value,
            Flag::H => self.hf = value,
            Flag::C => self.cf = value,
        }
    }

    pub fn check_condition(&self, cond: Condition) -> (r: bool)
        ensures
            r == self.spec_check_condition(cond),
    {
        match cond {
            Condition::NZ => !self.zf,
            Condition::Z => self.zf,
            Condition::NC => !self.cf,
            Condition::C => self.cf,
        }
    }

    pub fn read_pc(&self) -> (r: u16)
        ensures
            r == self.pc,
    {
        self.pc
    }

    pub fn increase_pc(&mut self, value: u16)
        ensures
            *final(self) == (Registers {
                pc: vstd::wrapping::u16_specs::wrapping_add(old(self).pc, value),
                ..*old(self)
            }),
    {
        self.pc = self.pc.wrapping_add(value);
    }

    pub fn write_pc(&mut self, value: u16)
        ensures
            *final(self) == (Registers { pc: value, ..*old(self) }),
    {
        self.pc = value;
    }

    /// Moves PC by a sign-extended 8-bit offset with 16-bit wrap.
    pub fn offset_pc(&mut self, offset: i8)
        ensures
            *final(self) == (Registers {
                pc: vstd::wrapping::u16_specs::wrapping_add_signed(old(self).pc, offset as i16),
                ..*old(self)
            }),
    {
        self.pc = self.pc.wrapping_add_signed(offset as i16);
    }

    pub fn increase_sp(&mut self, value: u16)
        ensures
            *final(self) == (Registers {
                sp: vstd::wrapping::u16_specs::wrapping_add(old(self).sp, value),
                ..*old(self)
            }),
    {
        self.sp = self.sp.wrapping_add(value);
    }

    pub fn decrement_sp(&mut self, value: u16)
        ensures
            *final(self) == (Registers {
                sp: vstd::wrapping::u16_specs::wrapping_sub(old(self).sp, value),
                ..*old(self)
            }),
    {
        self.sp = self.sp.wrapping_sub(value);
    }
}

/// Writing any single register through a selector and reading the same
/// selector back returns the written value, and touches no other register.
pub proof fn lemma_register_round_trip(regs: Registers, r: Register, v: u8)
    requires
        r != Register::HL_MEM,
    ensures
        regs.spec_write_register(r, v).spec_read_register(r) == v,
        regs.spec_write_register(r, v).sp == regs.sp,
        regs.spec_write_register(r, v).pc == regs.pc,
{
}

/// Writing any 16-bit pair and reading the same pair back returns the
/// written value.
pub proof fn lemma_pair_round_trip(regs: Registers, rr: DoubleRegister, v: u16)
    ensures
        regs.spec_write_pair(rr, v).spec_pair(rr) == v,
{
    lemma_concat16(v, 0, 0);
}

/// Writing any stack-form pair and reading it back returns the written
/// value, except that an AF write zeroes the low nibble of F: reading AF
/// back then gives the value with its low nibble cleared.
pub proof fn lemma_pair_stack_round_trip(regs: Registers, rr: DoubleRegisterStack, v: u16)
    ensures
        rr != DoubleRegisterStack::AF ==> regs.spec_write_pair_stack(rr, v).spec_pair_stack(rr)
            == v,
        rr == DoubleRegisterStack::AF ==> regs.spec_write_pair_stack(rr, v).spec_pair_stack(rr) == v
            & 0xFFF0,
{
    lemma_concat16(v, 0, 0);
    if rr == DoubleRegisterStack::AF {
        let w = regs.spec_write_pair_stack(rr, v);
        assert(w.f_byte() == lo8(v) & 0xF0) by {
            let lo = lo8(v);
            assert(((if lo & 0x80 != 0 {
                0x80u8
            } else {
                0u8
            }) | (if lo & 0x40 != 0 {
                0x40u8
            } else {
                0u8
            }) | (if lo & 0x20 != 0 {
                0x20u8
            } else {
                0u8
            }) | (if lo & 0x10 != 0 {
                0x10u8
            } else {
                0u8
            })) == lo & 0xF0) by (bit_vector);
        }
        assert(concat16(hi8(v), lo8(v) & 0xF0) == v & 0xFFF0) by (bit_vector);
    }
}

/// The F byte read back from the flags always has a zero low nibble,
/// whatever the flag state.
pub proof fn lemma_f_low_nibble_zero(regs: Registers)
    ensures
        regs.f_byte() & 0x0F == 0,
{
    let z: u8 = if regs.zf {
        0x80
    } else {
        0
    };
    let n: u8 = if regs.nf {
        0x40
    } else {
        0
    };
    let h: u8 = if regs.hf {
        0x20
    } else {
        0
    };
    let c: u8 = if regs.cf {
        0x10
    } else {
        0
    };
    assert((z | n | h | c) & 0x0F == 0) by (bit_vector)
        requires
            (z == 0x80 || z == 0) && (n == 0x40 || n == 0) && (h == 0x20 || h == 0) && (c == 0x10
                || c == 0),
    ;
}

} // verus!
