use vstd::prelude::*;

use crate::registers::{hi8, lo8, Registers};

verus! {

/// 8-bit addition with optional carry-in, wrapping at 0x100.
pub open spec fn spec_add8(a: u8, b: u8, cin: bool) -> u8 {
    let cv: int = if cin {
        1
    } else {
        0
    };
    if a + b + cv <= 0xFF {
        (a + b + cv) as u8
    } else {
        (a + b + cv - 0x100) as u8
    }
}

/// 8-bit subtraction with optional borrow-in, wrapping at 0x100.
pub open spec fn spec_sub8(a: u8, b: u8, cin: bool) -> u8 {
    let cv: int = if cin {
        1
    } else {
        0
    };
    if a >= b + cv {
        (a - b - cv) as u8
    } else {
        (a + 0x100 - b - cv) as u8
    }
}

/// 16-bit addition wrapping at 0x10000.
pub open spec fn spec_add16(a: u16, b: u16) -> u16 {
    if a + b <= 0xFFFF {
        (a + b) as u16
    } else {
        (a + b - 0x10000) as u16
    }
}

/// The accumulator value DAA produces: decimal adjustment of `a` after an
/// addition (N clear) or a subtraction (N set), driven by the half-carry
/// and carry flags of that operation.
pub open spec fn spec_daa_a(a: u8, n: bool, h: bool, c: bool) -> u8 {
    if !n {
        let a1 = if c || a > 0x99 {
            spec_add8(a, 0x60, false)
        } else {
            a
        };
        if h || (a1 & 0xF) > 9 {
            spec_add8(a1, 0x06, false)
        } else {
            a1
        }
    } else {
        let a1 = if c {
            spec_sub8(a, 0x60, false)
        } else {
            a
        };
        if h {
            spec_sub8(a1, 0x06, false)
        } else {
            a1
        }
    }
}

/// The carry flag DAA leaves: after an addition it is set exactly when the
/// result exceeded 0x99 or the carry was already set; after a subtraction
/// it is untouched.
pub open spec fn spec_daa_c(a: u8, n: bool, c: bool) -> bool {
    if !n {
        c || a > 0x99
    } else {
        c
    }
}

impl Registers {
    /// ADD A,v: A takes the wrapped sum; Z from the result, N clear, H from
    /// the low nibbles, C from the full byte.
    pub fn alu_add(&mut self, value: u8)
        ensures
            *final(self) == (Registers {
                a: spec_add8(old(self).a, value, false),
                zf: spec_add8(old(self).a, value, false) == 0,
                nf: false,
                hf: (old(self).a & 0xF) + (value & 0xF) > 0xF,
                cf: old(self).a + value > 0xFF,
                ..*old(self)
            }),
    {
        let a = self.a;
        let sum: u16 = a as u16 + value as u16;
        let result: u8 = if sum > 0xFF {
            (sum - 0x100) as u8
        } else {
            sum as u8
        };
        self.a = result;
        self.zf = result == 0;
        self.nf = false;
        self.hf = (a & 0xF) as u16 + (value & 0xF) as u16 > 0xF;
        self.cf = sum > 0xFF;
    }

    /// ADC A,v: as ADD but the carry joins both the sum and the flag tests.
    pub fn alu_adc(&mut self, value: u8)
        ensures
            *final(self) == (Registers {
                a: spec_add8(old(self).a, value, old(self).cf),
                zf: spec_add8(old(self).a, value, old(self).cf) == 0,
                nf: false,
                hf: (old(self).a & 0xF) + (value & 0xF) + (if old(self).cf {
                    1int
                } else {
                    0int
                }) > 0xF,
                cf: old(self).a + value + (if old(self).cf {
                    1int
                } else {
                    0int
                }) > 0xFF,
                ..*old(self)
            }),
    {
        let a = self.a;
        let cv: u16 = if self.cf {
            1
        } else {
            0
        };
        let sum: u16 = a as u16 + value as u16 + cv;
        let result: u8 = if sum > 0xFF {
            (sum - 0x100) as u8
        } else {
            sum as u8
        };
        self.a = result;
        self.zf = result == 0;
        self.nf = false;
        self.hf = (a & 0xF) as u16 + (value & 0xF) as u16 + cv > 0xF;
        self.cf = sum > 0xFF;
    }

    /// SUB A,v: A takes the wrapped difference; Z from the result, N set,
    /// H from a low-nibble borrow, C from a full borrow.
    pub fn alu_sub(&mut self, value: u8)
        ensures
            *final(self) == (Registers {
                a: spec_sub8(old(self).a, value, false),
                zf: spec_sub8(old(self).a, value, false) == 0,
                nf: true,
                hf: (old(self).a & 0xF) < (value & 0xF),
                cf: old(self).a < value,
                ..*old(self)
            }),
    {
        let a = self.a;
        let result: u8 = if a >= value {
            a - value
        } else {
            ((a as u16 + 0x100) - value as u16) as u8
        };
        self.a = result;
        self.zf = result == 0;
        self.nf = true;
        self.hf = (a & 0xF) < (value & 0xF);
        self.cf = a < value;
    }

    /// SBC A,v: as SUB but the borrow joins both the difference and the
    /// flag tests.
    pub fn alu_sbc(&mut self, value: u8)
        ensures
            *final(self) == (Registers {
                a: spec_sub8(old(self).a, value, old(self).cf),
                zf: spec_sub8(old(self).a, value, old(self).cf) == 0,
                nf: true,
                hf: (old(self).a & 0xF) < (value & 0xF) + (if old(self).cf {
                    1int
                } else {
                    0int
                }),
                cf: old(self).a < value + (if old(self).cf {
                    1int
                } else {
                    0int
                }),
                ..*old(self)
            }),
    {
        let a = self.a;
        let cv: u16 = if self.cf {
            1
        } else {
            0
        };
        let rhs: u16 = value as u16 + cv;
        let av: u16 = a as u16;
        let result: u8 = if av >= rhs {
            (av - rhs) as u8
        } else {
            (av + 0x100 - rhs) as u8
        };
        self.a = result;
        self.zf = result == 0;
        self.nf = true;
        self.hf = ((a & 0xF) as u16) < ((value & 0xF) as u16) + cv;
        self.cf = av < rhs;
    }

    /// AND A,v: Z from the result, N clear, H set, C clear.
    pub fn alu_and(&mut self, value: u8)
        ensures
            *final(self) == (Registers {
                a: old(self).a & value,
                zf: old(self).a & value == 0,
                nf: false,
                hf: true,
                cf: false,
                ..*old(self)
            }),
    {
        let result = self.a & value;
        self.a = result;
        self.zf = result == 0;
        self.nf = false;
        self.hf = true;
        self.cf = false;
    }

    /// OR A,v: Z from the result, N, H and C clear.
    pub fn alu_or(&mut self, value: u8)
        ensures
            *final(self) == (Registers {
                a: old(self).a | value,
                zf: old(self).a | value == 0,
                nf: false,
                hf: false,
                cf: false,
                ..*old(self)
            }),
    {
        let result = self.a | value;
        self.a = result;
        self.zf = result == 0;
        self.nf = false;
        self.hf = false;
        self.cf = false;
    }

    /// XOR A,v: Z from the result, N, H and C clear.
    pub fn alu_xor(&mut self, value: u8)
        ensures
            *final(self) == (Registers {
                a: old(self).a ^ value,
                zf: old(self).a ^ value == 0,
                nf: false,
                hf: false,
                cf: false,
                ..*old(self)
            }),
    {
        let result = self.a ^ value;
        self.a = result;
        self.zf = result == 0;
        self.nf = false;
        self.hf = false;
        self.cf = false;
    }

    /// CP A,v: the flags of SUB with the accumulator left alone.
    pub fn alu_cp(&mut self, value: u8)
        ensures
            *final(self) == (Registers {
                zf: spec_sub8(old(self).a, value, false) == 0,
                nf: true,
                hf: (old(self).a & 0xF) < (value & 0xF),
                cf: old(self).a < value,
                ..*old(self)
            }),
    {
        let a = self.a;
        let result: u8 = if a >= value {
            a - value
        } else {
            ((a as u16 + 0x100) - value as u16) as u8
        };
        self.zf = result == 0;
        self.nf = true;
        self.hf = (a & 0xF) < (value & 0xF);
        self.cf = a < value;
    }

    /// INC on an 8-bit operand: returns the wrapped successor and sets
    /// Z, N and H; C is untouched.
    pub fn alu_inc(&mut self, value: u8) -> (r: u8)
        ensures
            r == spec_add8(value, 1, false),
            *final(self) == (Registers {
                zf: spec_add8(value, 1, false) == 0,
                nf: false,
                hf: value & 0xF == 0xF,
                ..*old(self)
            }),
    {
        let result: u8 = if value == 0xFF {
            0
        } else {
            value + 1
        };
        self.zf = result == 0;
        self.nf = false;
        self.hf = value & 0xF == 0xF;
        result
    }

    /// DEC on an 8-bit operand: returns the wrapped predecessor and sets
    /// Z, N and H; C is untouched.
    pub fn alu_dec(&mut self, value: u8) -> (r: u8)
        ensures
            r == spec_sub8(value, 1, false),
            *final(self) == (Registers {
                zf: spec_sub8(value, 1, false) == 0,
                nf: true,
                hf: value & 0xF == 0,
                ..*old(self)
            }),
    {
        let result: u8 = if value == 0 {
            0xFF
        } else {
            value - 1
        };
        self.zf = result == 0;
        self.nf = true;
        self.hf = value & 0xF == 0;
        result
    }

    /// ADD HL,rr: HL takes the wrapped 16-bit sum; N clear, H from bit 11,
    /// C from bit 15, Z untouched.
    pub fn alu_add_hl(&mut self, value: u16)
        ensures
            *final(self) == (Registers {
                h: hi8(spec_add16(old(self).spec_hl(), value)),
                l: lo8(spec_add16(old(self).spec_hl(), value)),
                nf: false,
                hf: (old(self).spec_hl() & 0xFFF) + (value & 0xFFF) > 0xFFF,
                cf: old(self).spec_hl() + value > 0xFFFF,
                ..*old(self)
            }),
    {
        let hl: u16 = (self.h as u16) << 8 | self.l as u16;
        let sum: u32 = hl as u32 + value as u32;
        let result: u16 = if sum > 0xFFFF {
            (sum - 0x10000) as u16
        } else {
            sum as u16
        };
        self.h = (result >> 8) as u8;
        self.l = result as u8;
        self.nf = false;
        self.hf = (hl & 0xFFF) as u32 + (value & 0xFFF) as u32 > 0xFFF;
        self.cf = sum > 0xFFFF;
    }

    /// ADD SP,i8: SP moves by the sign-extended operand with 16-bit wrap;
    /// Z and N clear, H and C from unsigned addition at the low byte.
    pub fn alu_add_sp(&mut self, operand: u8)
        ensures
            *final(self) == (Registers {
                sp: vstd::wrapping::u16_specs::wrapping_add_signed(
                    old(self).sp,
                    (operand as i8) as i16,
                ),
                zf: false,
                nf: false,
                hf: (old(self).sp & 0xF) + (operand & 0xF) > 0xF,
                cf: (old(self).sp & 0xFF) + operand > 0xFF,
                ..*old(self)
            }),
    {
        let sp = self.sp;
        self.sp = sp.wrapping_add_signed((operand as i8) as i16);
        self.zf = false;
        self.nf = false;
        self.hf = (sp & 0xF) as u32 + (operand & 0xF) as u32 > 0xF;
        self.cf = (sp & 0xFF) as u32 + operand as u32 > 0xFF;
    }

    /// LD HL,SP+i8: HL takes SP moved by the sign-extended operand; the
    /// flags follow the ADD SP,i8 rule, SP itself is untouched.
    pub fn alu_ld_hl_sp(&mut self, operand: u8)
        ensures
            *final(self) == (Registers {
                h: hi8(
                    vstd::wrapping::u16_specs::wrapping_add_signed(
                        old(self).sp,
                        (operand as i8) as i16,
                    ),
                ),
                l: lo8(
                    vstd::wrapping::u16_specs::wrapping_add_signed(
                        old(self).sp,
                        (operand as i8) as i16,
                    ),
                ),
                zf: false,
                nf: false,
                hf: (old(self).sp & 0xF) + (operand & 0xF) > 0xF,
                cf: (old(self).sp & 0xFF) + operand > 0xFF,
                ..*old(self)
            }),
    {
        let sp = self.sp;
        let result: u16 = sp.wrapping_add_signed((operand as i8) as i16);
        self.h = (result >> 8) as u8;
        self.l = result as u8;
        self.zf = false;
        self.nf = false;
        self.hf = (sp & 0xF) as u32 + (operand & 0xF) as u32 > 0xF;
        self.cf = (sp & 0xFF) as u32 + operand as u32 > 0xFF;
    }

    /// RLCA: rotate A left; Z, N and H clear, C takes the ejected bit 7.
    pub fn alu_rlca(&mut self)
        ensures
            *final(self) == (Registers {
                a: (old(self).a << 1) | (old(self).a >> 7),
                zf: false,
                nf: false,
                hf: false,
                cf: old(self).a >> 7 == 1,
                ..*old(self)
            }),
    {
        let a = self.a;
        self.a = (a << 1) | (a >> 7);
        self.zf = false;
        self.nf = false;
        self.hf = false;
        self.cf = a >> 7 == 1;
    }

    /// RRCA: rotate A right; Z, N and H clear, C takes the ejected bit 0.
    pub fn alu_rrca(&mut self)
        ensures
            *final(self) == (Registers {
                a: (old(self).a >> 1) | (old(self).a << 7),
                zf: false,
                nf: false,
                hf: false,
                cf: old(self).a & 1 == 1,
                ..*old(self)
            }),
    {
        let a = self.a;
        self.a = (a >> 1) | (a << 7);
        self.zf = false;
        self.nf = false;
        self.hf = false;
        self.cf = a & 1 == 1;
    }

    /// RLA: rotate A left through the carry; Z, N and H clear, C takes the
    /// ejected bit 7.
    pub fn alu_rla(&mut self)
        ensures
            *final(self) == (Registers {
                a: (old(self).a << 1) | (if old(self).cf {
                    1u8
                } else {
                    0u8
                }),
                zf: false,
                nf: false,
                hf: false,
                cf: old(self).a >> 7 == 1,
                ..*old(self)
            }),
    {
        let a = self.a;
        let cv: u8 = if self.cf {
            1
        } else {
            0
        };
        self.a = (a << 1) | cv;
        self.zf = false;
        self.nf = false;
        self.hf = false;
        self.cf = a >> 7 == 1;
    }

    /// RRA: rotate A right through the carry; Z, N and H clear, C takes the
    /// ejected bit 0.
    pub fn alu_rra(&mut self)
        ensures
            *final(self) == (Registers {
                a: (old(self).a >> 1) | (if old(self).cf {
                    0x80u8
                } else {
                    0u8
                }),
                zf: false,
                nf: false,
                hf: false,
                cf: old(self).a & 1 == 1,
                ..*old(self)
            }),
    {
        let a = self.a;
        let cv: u8 = if self.cf {
            0x80
        } else {
            0
        };
        self.a = (a >> 1) | cv;
        self.zf = false;
        self.nf = false;
        self.hf = false;
        self.cf = a & 1 == 1;
    }

    /// DAA: decimal adjust after addition or subtraction; Z from the
    /// result, H clear, N untouched, C per the adjustment rule.
    pub fn alu_daa(&mut self)
        ensures
            *final(self) == (Registers {
                a: spec_daa_a(old(self).a, old(self).nf, old(self).hf, old(self).cf),
                zf: spec_daa_a(old(self).a, old(self).nf, old(self).hf, old(self).cf) == 0,
                nf: old(self).nf,
                hf: false,
                cf: spec_daa_c(old(self).a, old(self).nf, old(self).cf),
                ..*old(self)
            }),
    {
        let mut a = self.a;
        if !self.nf {
            if self.cf || a > 0x99 {
                a = a.wrapping_add(0x60);
                self.cf = true;
            }
            if self.hf || a & 0xF > 9 {
                a = a.wrapping_add(0x06);
            }
        } else {
            if self.cf {
                a = a.wrapping_sub(0x60);
            }
            if self.hf {
                a = a.wrapping_sub(0x06);
            }
        }
        self.a = a;
        self.zf = a == 0;
        self.hf = false;
    }

    /// CPL: complement A; N and H set.
    pub fn alu_cpl(&mut self)
        ensures
            *final(self) == (Registers { a: !old(self).a, nf: true, hf: true, ..*old(self) }),
    {
        self.a = !self.a;
        self.nf = true;
        self.hf = true;
    }

    /// SCF: set the carry; N and H clear.
    pub fn alu_scf(&mut self)
        ensures
            *final(self) == (Registers { nf: false, hf: false, cf: true, ..*old(self) }),
    {
        self.nf = false;
        self.hf = false;
        self.cf = true;
    }

    /// CCF: flip the carry; N and H clear.
    pub fn alu_ccf(&mut self)
        ensures
            *final(self) == (Registers { nf: false, hf: false, cf: !old(self).cf, ..*old(self) }),
    {
        self.nf = false;
        self.hf = false;
        self.cf = !self.cf;
    }

    /// RLC on any operand: returns the left rotation; Z from the result,
    /// N and H clear, C takes the ejected bit 7.
    pub fn cb_rlc(&mut self, value: u8) -> (r: u8)
        ensures
            r == (value << 1) | (value >> 7),
            *final(self) == (Registers {
                zf: ((value << 1) | (value >> 7)) == 0,
                nf: false,
                hf: false,
                cf: value >> 7 == 1,
                ..*old(self)
            }),
    {
        let result = (value << 1) | (value >> 7);
        self.zf = result == 0;
        self.nf = false;
        self.hf = false;
        self.cf = value >> 7 == 1;
        result
    }

    /// RRC on any operand: returns the right rotation; Z from the result,
    /// N and H clear, C takes the ejected bit 0.
    pub fn cb_rrc(&mut self, value: u8) -> (r: u8)
        ensures
            r == (value >> 1) | (value << 7),
            *final(self) == (Registers {
                zf: ((value >> 1) | (value << 7)) == 0,
                nf: false,
                hf: false,
                cf: value & 1 == 1,
                ..*old(self)
            }),
    {
        let result = (value >> 1) | (value << 7);
        self.zf = result == 0;
        self.nf = false;
        self.hf = false;
        self.cf = value & 1 == 1;
        result
    }

    /// RL on any operand: rotate left through the carry.
    pub fn cb_rl(&mut self, value: u8) -> (r: u8)
        ensures
            r == (value << 1) | (if old(self).cf {
                1u8
            } else {
                0u8
            }),
            *final(self) == (Registers {
                zf: ((value << 1) | (if old(self).cf {
                    1u8
                } else {
                    0u8
                })) == 0,
                nf: false,
                hf: false,
                cf: value >> 7 == 1,
                ..*old(self)
            }),
    {
        let cv: u8 = if self.cf {
            1
        } else {
            0
        };
        let result = (value << 1) | cv;
        self.zf = result == 0;
        self.nf = false;
        self.hf = false;
        self.cf = value >> 7 == 1;
        result
    }

    /// RR on any operand: rotate right through the carry.
    pub fn cb_rr(&mut self, value: u8) -> (r: u8)
        ensures
            r == (value >> 1) | (if old(self).cf {
                0x80u8
            } else {
                0u8
            }),
            *final(self) == (Registers {
                zf: ((value >> 1) | (if old(self).cf {
                    0x80u8
                } else {
                    0u8
                })) == 0,
                nf: false,
                hf: false,
                cf: value & 1 == 1,
                ..*old(self)
            }),
    {
        let cv: u8 = if self.cf {
            0x80
        } else {
            0
        };
        let result = (value >> 1) | cv;
        self.zf = result == 0;
        self.nf = false;
        self.hf = false;
        self.cf = value & 1 == 1;
        result
    }

    /// SLA on any operand: shift left, bit 0 cleared; C takes bit 7.
    pub fn cb_sla(&mut self, value: u8) -> (r: u8)
        ensures
            r == value << 1,
            *final(self) == (Registers {
                zf: (value << 1) == 0,
                nf: false,
                hf: false,
                cf: value >> 7 == 1,
                ..*old(self)
            }),
    {
        let result = value << 1;
        self.zf = result == 0;
        self.nf = false;
        self.hf = false;
        self.cf = value >> 7 == 1;
        result
    }

    /// SRA on any operand: shift right keeping bit 7; C takes bit 0.
    pub fn cb_sra(&mut self, value: u8) -> (r: u8)
        ensures
            r == (value >> 1) | (value & 0x80),
            *final(self) == (Registers {
                zf: ((value >> 1) | (value & 0x80)) == 0,
                nf: false,
                hf: false,
                cf: value & 1 == 1,
                ..*old(self)
            }),
    {
        let result = (value >> 1) | (value & 0x80);
        self.zf = result == 0;
        self.nf = false;
        self.hf = false;
        self.cf = value & 1 == 1;
        result
    }

    /// SWAP on any operand: exchange the nibbles; Z from the result, the
    /// other flags clear.
    pub fn cb_swap(&mut self, value: u8) -> (r: u8)
        ensures
            r == ((value & 0xF) << 4) | (value >> 4),
            *final(self) == (Registers {
                zf: (((value & 0xF) << 4) | (value >> 4)) == 0,
                nf: false,
                hf: false,
                cf: false,
                ..*old(self)
            }),
    {
        let result = ((value & 0xF) << 4) | (value >> 4);
        self.zf = result == 0;
        self.nf = false;
        self.hf = false;
        self.cf = false;
        result
    }

    /// SRL on any operand: shift right, bit 7 cleared; C takes bit 0.
    pub fn cb_srl(&mut self, value: u8) -> (r: u8)
        ensures
            r == value >> 1,
            *final(self) == (Registers {
                zf: (value >> 1) == 0,
                nf: false,
                hf: false,
                cf: value & 1 == 1,
                ..*old(self)
            }),
    {
        let result = value >> 1;
        self.zf = result == 0;
        self.nf = false;
        self.hf = false;
        self.cf = value & 1 == 1;
        result
    }

    /// BIT b,v: Z is set when the tested bit is clear; N clear, H set,
    /// C untouched.
    pub fn cb_bit(&mut self, bit: u8, value: u8)
        requires
            bit < 8,
        ensures
            *final(self) == (Registers {
                zf: (value >> bit) & 1 == 0,
                nf: false,
                hf: true,
                ..*old(self)
            }),
    {
        self.zf = (value >> bit) & 1 == 0;
        self.nf = false;
        self.hf = true;
    }
}

/// The register file after one of the eight accumulator operations on an
/// operand byte, the operation indexed as in bits 5..3 of the opcode:
/// ADD, ADC, SUB, SBC, AND, XOR, OR, CP.
pub open spec fn spec_alu_op(regs: Registers, op: u8, value: u8) -> Registers {
    if op == 0 {
        Registers {
            a: spec_add8(regs.a, value, false),
            zf: spec_add8(regs.a, value, false) == 0,
            nf: false,
            hf: (regs.a & 0xF) + (value & 0xF) > 0xF,
            cf: regs.a + value > 0xFF,
            ..regs
        }
    } else if op == 1 {
        Registers {
            a: spec_add8(regs.a, value, regs.cf),
            zf: spec_add8(regs.a, value, regs.cf) == 0,
            nf: false,
            hf: (regs.a & 0xF) + (value & 0xF) + (if regs.cf {
                1int
            } else {
                0int
            }) > 0xF,
            cf: regs.a + value + (if regs.cf {
                1int
            } else {
                0int
            }) > 0xFF,
            ..regs
        }
    } else if op == 2 {
        Registers {
            a: spec_sub8(regs.a, value, false),
            zf: spec_sub8(regs.a, value, false) == 0,
            nf: true,
            hf: (regs.a & 0xF) < (value & 0xF),
            cf: regs.a < value,
            ..regs
        }
    } else if op == 3 {
        Registers {
            a: spec_sub8(regs.a, value, regs.cf),
            zf: spec_sub8(regs.a, value, regs.cf) == 0,
            nf: true,
            hf: (regs.a & 0xF) < (value & 0xF) + (if regs.cf {
                1int
            } else {
                0int
            }),
            cf: regs.a < value + (if regs.cf {
                1int
            } else {
                0int
            }),
            ..regs
        }
    } else if op == 4 {
        Registers {
            a: regs.a & value,
            zf: regs.a & value == 0,
            nf: false,
            hf: true,
            cf: false,
            ..regs
        }
    } else if op == 5 {
        Registers {
            a: regs.a ^ value,
            zf: regs.a ^ value == 0,
            nf: false,
            hf: false,
            cf: false,
            ..regs
        }
    } else if op == 6 {
        Registers {
            a: regs.a | value,
            zf: regs.a | value == 0,
            nf: false,
            hf: false,
            cf: false,
            ..regs
        }
    } else {
        Registers {
            zf: spec_sub8(regs.a, value, false) == 0,
            nf: true,
            hf: (regs.a & 0xF) < (value & 0xF),
            cf: regs.a < value,
            ..regs
        }
    }
}

/// Both nibbles of the byte are decimal digits.
pub open spec fn is_bcd(v: u8) -> bool {
    v & 0xF <= 9 && (v >> 4) <= 9
}

/// The decimal number a BCD byte encodes.
pub open spec fn bcd_value(v: u8) -> int {
    10 * (v >> 4) + (v & 0xF)
}

/// ADD of two BCD operands followed by DAA yields the BCD encoding of the
/// decimal sum modulo 100, with the carry set exactly when the sum reached
/// one hundred.
pub proof fn lemma_daa_after_add(a: u8, b: u8)
    requires
        is_bcd(a),
        is_bcd(b),
    ensures
        ({
            let s = spec_add8(a, b, false);
            let h = (a & 0xF) + (b & 0xF) > 0xF;
            let c = a + b > 0xFF;
            let r = spec_daa_a(s, false, h, c);
            is_bcd(r) && bcd_value(r) == (bcd_value(a) + bcd_value(b)) % 100 && spec_daa_c(s, false, c)
                == (bcd_value(a) + bcd_value(b) >= 100)
        }),
{
    let s = spec_add8(a, b, false);
    let h = (a & 0xF) + (b & 0xF) > 0xF;
    let c = a + b > 0xFF;
    let r = spec_daa_a(s, false, h, c);
    assert(is_bcd(r) && bcd_value(r) == (bcd_value(a) + bcd_value(b)) % 100 && spec_daa_c(s, false, c)
        == (bcd_value(a) + bcd_value(b) >= 100)) by (bit_vector)
        requires
            a & 0xF <= 9 && (a >> 4) <= 9 && b & 0xF <= 9 && (b >> 4) <= 9,
            s == spec_add8(a, b, false),
            h == ((a & 0xF) + (b & 0xF) > 0xF),
            c == (a + b > 0xFF),
            r == spec_daa_a(s, false, h, c),
    ;
}

/// SUB of two BCD operands followed by DAA yields the BCD encoding of the
/// decimal difference modulo 100, with the carry set exactly when the
/// subtraction borrowed.
pub proof fn lemma_daa_after_sub(a: u8, b: u8)
    requires
        is_bcd(a),
        is_bcd(b),
    ensures
        ({
            let s = spec_sub8(a, b, false);
            let h = (a & 0xF) < (b & 0xF);
            let c = a < b;
            let r = spec_daa_a(s, true, h, c);
            is_bcd(r) && bcd_value(r) == (bcd_value(a) - bcd_value(b)) % 100 && spec_daa_c(s, true, c)
                == (a < b)
        }),
{
    let s = spec_sub8(a, b, false);
    let h = (a & 0xF) < (b & 0xF);
    let c = a < b;
    let r = spec_daa_a(s, true, h, c);
    assert(is_bcd(r) && bcd_value(r) == (bcd_value(a) - bcd_value(b)) % 100) by (bit_vector)
        requires
            a & 0xF <= 9 && (a >> 4) <= 9 && b & 0xF <= 9 && (b >> 4) <= 9,
            s == spec_sub8(a, b, false),
            h == ((a & 0xF) < (b & 0xF)),
            c == (a < b),
            r == spec_daa_a(s, true, h, c),
    ;
}

} // verus!
