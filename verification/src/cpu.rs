use vstd::prelude::*;

use crate::err::EmuError;
use crate::alu::{spec_add16, spec_add8, spec_alu_op, spec_daa_a, spec_daa_c, spec_sub8};
use crate::interrupt::InterruptHandler;
use crate::joypad::Button;
use crate::memory::{
    spec_gpu_ticked, spec_read_ok, spec_read_val, spec_timer_ticked, spec_write_ok, spec_written,
    Memory,
};
use crate::registers::{
    concat16, hi8, lo8, Condition, DoubleRegister, DoubleRegisterMem, DoubleRegisterStack,
    Register, Registers,
};

verus! {

/// The opcodes that name no instruction on this CPU; fetching one is fatal.
pub open spec fn spec_illegal_opcode(b: u8) -> bool {
    ||| b == 0xD3
    ||| b == 0xDB
    ||| b == 0xDD
    ||| b == 0xE3
    ||| b == 0xE4
    ||| b == 0xEB
    ||| b == 0xEC
    ||| b == 0xED
    ||| b == 0xF4
    ||| b == 0xFC
    ||| b == 0xFD
}

/// Two bus writes in sequence took the memory from `m` to `n`.
pub open spec fn spec_written2(m: Memory, n: Memory, a1: u16, d1: u8, a2: u16, d2: u8) -> bool {
    exists|mid: Memory| #[trigger] spec_written(m, mid, a1, d1) && spec_written(mid, n, a2, d2)
}

/// The highest-priority interrupt source that is both enabled and
/// requested, if any; priority runs up the bit positions.
pub open spec fn spec_first_pending(ie: u8, iff: u8) -> Option<InterruptHandler> {
    let p = ie & iff;
    if p & 1 != 0 {
        Some(InterruptHandler::VBlank)
    } else if p & 2 != 0 {
        Some(InterruptHandler::LCD)
    } else if p & 4 != 0 {
        Some(InterruptHandler::Timer)
    } else if p & 8 != 0 {
        Some(InterruptHandler::Serial)
    } else if p & 16 != 0 {
        Some(InterruptHandler::Joypad)
    } else {
        None
    }
}


/// The exact register-file semantics of the quadrant-00 instructions.
pub open spec fn spec_q0_effect(
    byte: u8,
    regs: Registers,
    mem: Memory,
    nr: Registers,
    nm: Memory,
    r: Result<u8, EmuError>,
) -> bool {
    let pc1 = vstd::wrapping::u16_specs::wrapping_add(regs.pc, 1);
    let pc2 = vstd::wrapping::u16_specs::wrapping_add(regs.pc, 2);
    let sp1 = vstd::wrapping::u16_specs::wrapping_add(regs.sp, 1);
    let sp2 = vstd::wrapping::u16_specs::wrapping_add(regs.sp, 2);
    let rr = DoubleRegister::spec_from_bits((byte >> 4) & 3);
    let rr_mem = DoubleRegisterMem::spec_from_bits((byte >> 4) & 3);
    let rr_stk = DoubleRegisterStack::spec_from_bits((byte >> 4) & 3);
    let r8 = Register::spec_from_bits((byte >> 3) & 7);
    let cond = Condition::spec_from_bits((byte >> 3) & 3);
    &&& (byte == 0x00 || byte == 0x10 ==> r == Ok::<u8, EmuError>(1) && nr == regs && nm == mem)
    &&& (byte == 0x07 || byte == 0x0F || byte == 0x17 || byte == 0x1F || byte == 0x27
        || byte == 0x2F || byte == 0x37 || byte == 0x3F ==> r == Ok::<u8, EmuError>(1) && nm
        == mem)
    &&& (byte == 0x07 ==> nr == (Registers {
        a: (regs.a << 1) | (regs.a >> 7),
        zf: false,
        nf: false,
        hf: false,
        cf: regs.a >> 7 == 1,
        ..regs
    }))
    &&& (byte == 0x0F ==> nr == (Registers {
        a: (regs.a >> 1) | (regs.a << 7),
        zf: false,
        nf: false,
        hf: false,
        cf: regs.a & 1 == 1,
        ..regs
    }))
    &&& (byte == 0x17 ==> nr == (Registers {
        a: (regs.a << 1) | (if regs.cf {
            1u8
        } else {
            0u8
        }),
        zf: false,
        nf: false,
        hf: false,
        cf: regs.a >> 7 == 1,
        ..regs
    }))
    &&& (byte == 0x1F ==> nr == (Registers {
        a: (regs.a >> 1) | (if regs.cf {
            0x80u8
        } else {
            0u8
        }),
        zf: false,
        nf: false,
        hf: false,
        cf: regs.a & 1 == 1,
        ..regs
    }))
    &&& (byte == 0x27 ==> nr == (Registers {
        a: spec_daa_a(regs.a, regs.nf, regs.hf, regs.cf),
        zf: spec_daa_a(regs.a, regs.nf, regs.hf, regs.cf) == 0,
        nf: regs.nf,
        hf: false,
        cf: spec_daa_c(regs.a, regs.nf, regs.cf),
        ..regs
    }))
    &&& (byte == 0x2F ==> nr == (Registers { a: !regs.a, nf: true, hf: true, ..regs }))
    &&& (byte == 0x37 ==> nr == (Registers { nf: false, hf: false, cf: true, ..regs }))
    &&& (byte == 0x3F ==> nr == (Registers { nf: false, hf: false, cf: !regs.cf, ..regs }))
    &&& (byte == 0x03 || byte == 0x13 || byte == 0x23 || byte == 0x33 ==> r == Ok::<
        u8,
        EmuError,
    >(2) && nm == mem && nr == regs.spec_write_pair(
        rr,
        vstd::wrapping::u16_specs::wrapping_add(regs.spec_pair(rr), 1),
    ))
    &&& (byte == 0x0B || byte == 0x1B || byte == 0x2B || byte == 0x3B ==> r == Ok::<
        u8,
        EmuError,
    >(2) && nm == mem && nr == regs.spec_write_pair(
        rr,
        vstd::wrapping::u16_specs::wrapping_sub(regs.spec_pair(rr), 1),
    ))
    &&& (byte == 0x09 || byte == 0x19 || byte == 0x29 || byte == 0x39 ==> r == Ok::<
        u8,
        EmuError,
    >(2) && nm == mem && nr == (Registers {
        h: hi8(spec_add16(regs.spec_hl(), regs.spec_pair(rr))),
        l: lo8(spec_add16(regs.spec_hl(), regs.spec_pair(rr))),
        nf: false,
        hf: (regs.spec_hl() & 0xFFF) + (regs.spec_pair(rr) & 0xFFF) > 0xFFF,
        cf: regs.spec_hl() + regs.spec_pair(rr) > 0xFFFF,
        ..regs
    }))
    &&& (byte == 0x18 && spec_read_ok(regs.pc) ==> r == Ok::<u8, EmuError>(3) && nm == mem && nr
        == (Registers {
        pc: vstd::wrapping::u16_specs::wrapping_add_signed(
            pc1,
            (spec_read_val(mem, regs.pc) as i8) as i16,
        ),
        ..regs
    }))
    &&& ((byte == 0x01 || byte == 0x11 || byte == 0x21 || byte == 0x31) && spec_read_ok(regs.pc)
        && spec_read_ok(pc1) ==> r == Ok::<u8, EmuError>(3) && nm == mem && nr == (Registers {
        pc: pc2,
        ..regs
    }).spec_write_pair(rr, concat16(spec_read_val(mem, pc1), spec_read_val(mem, regs.pc))))
    &&& ((byte == 0x20 || byte == 0x28 || byte == 0x30 || byte == 0x38) && spec_read_ok(regs.pc)
        ==> nm == mem && (if regs.spec_check_condition(cond) {
        r == Ok::<u8, EmuError>(3) && nr == (Registers {
            pc: vstd::wrapping::u16_specs::wrapping_add_signed(
                pc1,
                (spec_read_val(mem, regs.pc) as i8) as i16,
            ),
            ..regs
        })
    } else {
        r == Ok::<u8, EmuError>(2) && nr == (Registers { pc: pc1, ..regs })
    }))
    &&& ((byte == 0x04 || byte == 0x0C || byte == 0x14 || byte == 0x1C || byte == 0x24 || byte
        == 0x2C || byte == 0x34 || byte == 0x3C) && r8 != Register::HL_MEM ==> r == Ok::<
        u8,
        EmuError,
    >(1) && nm == mem && nr == (Registers {
        zf: spec_add8(regs.spec_read_register(r8), 1, false) == 0,
        nf: false,
        hf: regs.spec_read_register(r8) & 0xF == 0xF,
        ..regs
    }).spec_write_register(r8, spec_add8(regs.spec_read_register(r8), 1, false)))
    &&& ((byte == 0x05 || byte == 0x0D || byte == 0x15 || byte == 0x1D || byte == 0x25 || byte
        == 0x2D || byte == 0x35 || byte == 0x3D) && r8 != Register::HL_MEM ==> r == Ok::<
        u8,
        EmuError,
    >(1) && nm == mem && nr == (Registers {
        zf: spec_sub8(regs.spec_read_register(r8), 1, false) == 0,
        nf: true,
        hf: regs.spec_read_register(r8) & 0xF == 0,
        ..regs
    }).spec_write_register(r8, spec_sub8(regs.spec_read_register(r8), 1, false)))
    &&& ((byte == 0x06 || byte == 0x0E || byte == 0x16 || byte == 0x1E || byte == 0x26 || byte
        == 0x2E || byte == 0x36 || byte == 0x3E) && r8 != Register::HL_MEM && spec_read_ok(
        regs.pc,
    ) ==> r == Ok::<u8, EmuError>(2) && nm
        == mem && nr == (Registers { pc: pc1, ..regs }).spec_write_register(
        r8,
        spec_read_val(mem, regs.pc),
    ))
    &&& (byte == 0x08 && spec_read_ok(regs.pc) && spec_read_ok(pc1) ==> ({
        let addr = concat16(spec_read_val(mem, pc1), spec_read_val(mem, regs.pc));
        let addr1 = vstd::wrapping::u16_specs::wrapping_add(addr, 1);
        spec_write_ok(addr, lo8(regs.sp)) && spec_write_ok(addr1, hi8(regs.sp)) ==> r == Ok::<
            u8,
            EmuError,
        >(5) && nr == (Registers { pc: pc2, ..regs }) && crate::cpu::spec_written2(
            mem,
            nm,
            addr,
            lo8(regs.sp),
            addr1,
            hi8(regs.sp),
        )
    }))
    &&& ((byte == 0x02 || byte == 0x12 || byte == 0x22 || byte == 0x32) && spec_write_ok(
        regs.spec_pair_mem_value(rr_mem),
        regs.a,
    ) ==> r == Ok::<u8, EmuError>(2) && nr == regs.spec_pair_mem_after(rr_mem) && spec_written(
        mem,
        nm,
        regs.spec_pair_mem_value(rr_mem),
        regs.a,
    ))
    &&& ((byte == 0x0A || byte == 0x1A || byte == 0x2A || byte == 0x3A) && spec_read_ok(
        regs.spec_pair_mem_value(rr_mem),
    ) ==> r == Ok::<u8, EmuError>(2) && nm == mem && nr == regs.spec_pair_mem_after(
        rr_mem,
    ).spec_write_register(
        Register::A,
        spec_read_val(mem, regs.spec_pair_mem_value(rr_mem)),
    ))
    &&& (byte == 0x34 && spec_read_ok(regs.spec_hl()) && spec_write_ok(
        regs.spec_hl(),
        spec_add8(spec_read_val(mem, regs.spec_hl()), 1, false),
    ) ==> r == Ok::<u8, EmuError>(3) && nr == (Registers {
        zf: spec_add8(spec_read_val(mem, regs.spec_hl()), 1, false) == 0,
        nf: false,
        hf: spec_read_val(mem, regs.spec_hl()) & 0xF == 0xF,
        ..regs
    }) && spec_written(
        mem,
        nm,
        regs.spec_hl(),
        spec_add8(spec_read_val(mem, regs.spec_hl()), 1, false),
    ))
    &&& (byte == 0x35 && spec_read_ok(regs.spec_hl()) && spec_write_ok(
        regs.spec_hl(),
        spec_sub8(spec_read_val(mem, regs.spec_hl()), 1, false),
    ) ==> r == Ok::<u8, EmuError>(3) && nr == (Registers {
        zf: spec_sub8(spec_read_val(mem, regs.spec_hl()), 1, false) == 0,
        nf: true,
        hf: spec_read_val(mem, regs.spec_hl()) & 0xF == 0,
        ..regs
    }) && spec_written(
        mem,
        nm,
        regs.spec_hl(),
        spec_sub8(spec_read_val(mem, regs.spec_hl()), 1, false),
    ))
    &&& (byte == 0x36 && spec_read_ok(regs.pc) && spec_write_ok(
        regs.spec_hl(),
        spec_read_val(mem, regs.pc),
    ) ==> r == Ok::<u8, EmuError>(3) && nr == (Registers { pc: pc1, ..regs }) && spec_written(
        mem,
        nm,
        regs.spec_hl(),
        spec_read_val(mem, regs.pc),
    ))
}

/// The exact semantics of the register-to-register loads.
pub open spec fn spec_q1_effect(
    byte: u8,
    regs: Registers,
    mem: Memory,
    nr: Registers,
    nm: Memory,
    r: Result<u8, EmuError>,
) -> bool {
    let pc1 = vstd::wrapping::u16_specs::wrapping_add(regs.pc, 1);
    let pc2 = vstd::wrapping::u16_specs::wrapping_add(regs.pc, 2);
    let sp1 = vstd::wrapping::u16_specs::wrapping_add(regs.sp, 1);
    let sp2 = vstd::wrapping::u16_specs::wrapping_add(regs.sp, 2);
    let rr = DoubleRegister::spec_from_bits((byte >> 4) & 3);
    let rr_stk = DoubleRegisterStack::spec_from_bits((byte >> 4) & 3);
    let r8 = Register::spec_from_bits((byte >> 3) & 7);
    let cond = Condition::spec_from_bits((byte >> 3) & 3);
    &&& (0x40 <= byte < 0x80 && byte != 0x76 && r8 != Register::HL_MEM && Register::spec_from_bits(
        byte & 7,
    ) != Register::HL_MEM ==> r == Ok::<u8, EmuError>(1) && nm == mem && nr
        == regs.spec_write_register(
        r8,
        regs.spec_read_register(Register::spec_from_bits(byte & 7)),
    ))
    &&& (0x40 <= byte < 0x80 && byte != 0x76 && r8 != Register::HL_MEM
        && Register::spec_from_bits(byte & 7) == Register::HL_MEM && spec_read_ok(regs.spec_hl())
        ==> r == Ok::<u8, EmuError>(2) && nm == mem && nr == regs.spec_write_register(
        r8,
        spec_read_val(mem, regs.spec_hl()),
    ))
    &&& (0x40 <= byte < 0x80 && byte != 0x76 && r8 == Register::HL_MEM
        && Register::spec_from_bits(byte & 7) != Register::HL_MEM && spec_write_ok(
        regs.spec_hl(),
        regs.spec_read_register(Register::spec_from_bits(byte & 7)),
    ) ==> r == Ok::<u8, EmuError>(2) && nr == regs && spec_written(
        mem,
        nm,
        regs.spec_hl(),
        regs.spec_read_register(Register::spec_from_bits(byte & 7)),
    ))
}

/// The exact semantics of the ALU family on register operands.
pub open spec fn spec_q2_effect(
    byte: u8,
    regs: Registers,
    mem: Memory,
    nr: Registers,
    nm: Memory,
    r: Result<u8, EmuError>,
) -> bool {
    let pc1 = vstd::wrapping::u16_specs::wrapping_add(regs.pc, 1);
    let pc2 = vstd::wrapping::u16_specs::wrapping_add(regs.pc, 2);
    let sp1 = vstd::wrapping::u16_specs::wrapping_add(regs.sp, 1);
    let sp2 = vstd::wrapping::u16_specs::wrapping_add(regs.sp, 2);
    let rr = DoubleRegister::spec_from_bits((byte >> 4) & 3);
    let rr_stk = DoubleRegisterStack::spec_from_bits((byte >> 4) & 3);
    let r8 = Register::spec_from_bits((byte >> 3) & 7);
    let cond = Condition::spec_from_bits((byte >> 3) & 3);
    &&& (0x80 <= byte < 0xC0 && Register::spec_from_bits(byte & 7) != Register::HL_MEM ==> r
        == Ok::<u8, EmuError>(1) && nm == mem && nr == spec_alu_op(
        regs,
        (byte >> 3) & 7,
        regs.spec_read_register(Register::spec_from_bits(byte & 7)),
    ))
    &&& (0x80 <= byte < 0xC0 && Register::spec_from_bits(byte & 7) == Register::HL_MEM
        && spec_read_ok(regs.spec_hl()) ==> r == Ok::<u8, EmuError>(2) && nm == mem && nr
        == spec_alu_op(regs, (byte >> 3) & 7, spec_read_val(mem, regs.spec_hl())))
}

/// The exact register-file semantics of the quadrant-11 instructions
/// that leave memory alone.
pub open spec fn spec_q3_effect(
    byte: u8,
    regs: Registers,
    mem: Memory,
    nr: Registers,
    nm: Memory,
    r: Result<u8, EmuError>,
) -> bool {
    let pc1 = vstd::wrapping::u16_specs::wrapping_add(regs.pc, 1);
    let pc2 = vstd::wrapping::u16_specs::wrapping_add(regs.pc, 2);
    let sp1 = vstd::wrapping::u16_specs::wrapping_add(regs.sp, 1);
    let sp2 = vstd::wrapping::u16_specs::wrapping_add(regs.sp, 2);
    let rr = DoubleRegister::spec_from_bits((byte >> 4) & 3);
    let rr_stk = DoubleRegisterStack::spec_from_bits((byte >> 4) & 3);
    let r8 = Register::spec_from_bits((byte >> 3) & 7);
    let cond = Condition::spec_from_bits((byte >> 3) & 3);
    &&& ((byte == 0xC6 || byte == 0xCE || byte == 0xD6 || byte == 0xDE || byte == 0xE6 || byte
        == 0xEE || byte == 0xF6 || byte == 0xFE) && spec_read_ok(regs.pc) ==> r == Ok::<
        u8,
        EmuError,
    >(2) && nm == mem && nr == spec_alu_op(
        Registers { pc: pc1, ..regs },
        (byte >> 3) & 7,
        spec_read_val(mem, regs.pc),
    ))
    &&& ((byte == 0xC1 || byte == 0xD1 || byte == 0xE1 || byte == 0xF1) && spec_read_ok(regs.sp)
        && spec_read_ok(sp1) ==> r == Ok::<u8, EmuError>(3) && nm == mem && nr == (Registers {
        sp: sp2,
        ..regs
    }).spec_write_pair_stack(rr_stk, concat16(spec_read_val(mem, sp1), spec_read_val(mem, regs.sp))))
    &&& (byte == 0xC9 && spec_read_ok(regs.sp) && spec_read_ok(sp1) ==> r == Ok::<u8, EmuError>(4)
        && nm == mem && nr == (Registers {
        pc: concat16(spec_read_val(mem, sp1), spec_read_val(mem, regs.sp)),
        sp: sp2,
        ..regs
    }))
    &&& (byte == 0xC3 && spec_read_ok(regs.pc) && spec_read_ok(pc1) ==> r == Ok::<u8, EmuError>(4)
        && nm == mem && nr == (Registers {
        pc: concat16(spec_read_val(mem, pc1), spec_read_val(mem, regs.pc)),
        ..regs
    }))
    &&& (byte == 0xE9 ==> r == Ok::<u8, EmuError>(1) && nm == mem && nr == (Registers {
        pc: regs.spec_hl(),
        ..regs
    }))
    &&& (byte == 0xF9 ==> r == Ok::<u8, EmuError>(2) && nm == mem && nr == regs.spec_write_pair(
        DoubleRegister::SP,
        regs.spec_hl(),
    ))
    &&& (byte == 0xF3 || byte == 0xFB ==> r == Ok::<u8, EmuError>(1) && nm == mem && nr == regs)
}



/// The exact semantics of the quadrant-11 instructions that branch through
/// the stack or memory: conditional and plain calls and returns, pushes,
/// restarts, the high-page and absolute accumulator loads, and the
/// SP-relative arithmetic.
pub open spec fn spec_q3_mem_effect(
    byte: u8,
    regs: Registers,
    mem: Memory,
    nr: Registers,
    nm: Memory,
    r: Result<u8, EmuError>,
) -> bool {
    let pc1 = vstd::wrapping::u16_specs::wrapping_add(regs.pc, 1);
    let pc2 = vstd::wrapping::u16_specs::wrapping_add(regs.pc, 2);
    let sp1 = vstd::wrapping::u16_specs::wrapping_add(regs.sp, 1);
    let sp2 = vstd::wrapping::u16_specs::wrapping_add(regs.sp, 2);
    let spm1 = vstd::wrapping::u16_specs::wrapping_sub(regs.sp, 1);
    let spm2 = vstd::wrapping::u16_specs::wrapping_sub(regs.sp, 2);
    let rr_stk = DoubleRegisterStack::spec_from_bits((byte >> 4) & 3);
    let cond = Condition::spec_from_bits((byte >> 3) & 3);
    let addr16 = concat16(spec_read_val(mem, pc1), spec_read_val(mem, regs.pc));
    let popped = concat16(spec_read_val(mem, sp1), spec_read_val(mem, regs.sp));
    &&& ((byte == 0xC0 || byte == 0xC8 || byte == 0xD0 || byte == 0xD8)
        && !regs.spec_check_condition(cond) ==> r == Ok::<u8, EmuError>(2) && nm == mem && nr
        == regs)
    &&& ((byte == 0xC0 || byte == 0xC8 || byte == 0xD0 || byte == 0xD8)
        && regs.spec_check_condition(cond) && spec_read_ok(regs.sp) && spec_read_ok(sp1) ==> r
        == Ok::<u8, EmuError>(5) && nm == mem && nr == (Registers { pc: popped, sp: sp2, ..regs }))
    &&& ((byte == 0xC2 || byte == 0xCA || byte == 0xD2 || byte == 0xDA) && spec_read_ok(regs.pc)
        && spec_read_ok(pc1) ==> nm == mem && (if regs.spec_check_condition(cond) {
        r == Ok::<u8, EmuError>(4) && nr == (Registers { pc: addr16, ..regs })
    } else {
        r == Ok::<u8, EmuError>(3) && nr == (Registers { pc: pc2, ..regs })
    }))
    &&& (byte == 0xD9 && spec_read_ok(regs.sp) && spec_read_ok(sp1) ==> r == Ok::<u8, EmuError>(4)
        && nm == mem && nr == (Registers { pc: popped, sp: sp2, ..regs }))
    &&& ((byte == 0xC4 || byte == 0xCC || byte == 0xD4 || byte == 0xDC) && spec_read_ok(regs.pc)
        && spec_read_ok(pc1) && !regs.spec_check_condition(cond) ==> r == Ok::<u8, EmuError>(3)
        && nm == mem && nr == (Registers { pc: pc2, ..regs }))
    &&& ((byte == 0xC4 || byte == 0xCC || byte == 0xD4 || byte == 0xDC || byte == 0xCD)
        && spec_read_ok(regs.pc) && spec_read_ok(pc1) && (byte == 0xCD
        || regs.spec_check_condition(cond)) && spec_write_ok(spm1, hi8(pc2)) && spec_write_ok(
        spm2,
        lo8(pc2),
    ) ==> r == Ok::<u8, EmuError>(6) && nr == (Registers { pc: addr16, sp: spm2, ..regs })
        && spec_written2(mem, nm, spm1, hi8(pc2), spm2, lo8(pc2)))
    &&& ((byte == 0xC5 || byte == 0xD5 || byte == 0xE5 || byte == 0xF5) && spec_write_ok(
        spm1,
        hi8(regs.spec_pair_stack(rr_stk)),
    ) && spec_write_ok(spm2, lo8(regs.spec_pair_stack(rr_stk))) ==> r == Ok::<u8, EmuError>(4)
        && nr == (Registers { sp: spm2, ..regs }) && spec_written2(
        mem,
        nm,
        spm1,
        hi8(regs.spec_pair_stack(rr_stk)),
        spm2,
        lo8(regs.spec_pair_stack(rr_stk)),
    ))
    &&& ((byte == 0xC7 || byte == 0xCF || byte == 0xD7 || byte == 0xDF || byte == 0xE7 || byte
        == 0xEF || byte == 0xF7 || byte == 0xFF) && spec_write_ok(spm1, hi8(regs.pc))
        && spec_write_ok(spm2, lo8(regs.pc)) ==> r == Ok::<u8, EmuError>(4) && nr == (Registers {
        pc: (((byte >> 3) & 7) as u16 * 8) as u16,
        sp: spm2,
        ..regs
    }) && spec_written2(mem, nm, spm1, hi8(regs.pc), spm2, lo8(regs.pc)))
    &&& (byte == 0xE0 && spec_read_ok(regs.pc) && spec_write_ok(
        (0xFF00 + spec_read_val(mem, regs.pc)) as u16,
        regs.a,
    ) ==> r == Ok::<u8, EmuError>(3) && nr == (Registers { pc: pc1, ..regs }) && spec_written(
        mem,
        nm,
        (0xFF00 + spec_read_val(mem, regs.pc)) as u16,
        regs.a,
    ))
    &&& (byte == 0xF0 && spec_read_ok(regs.pc) && spec_read_ok(
        (0xFF00 + spec_read_val(mem, regs.pc)) as u16,
    ) ==> r == Ok::<u8, EmuError>(3) && nm == mem && nr == (Registers {
        a: spec_read_val(mem, (0xFF00 + spec_read_val(mem, regs.pc)) as u16),
        pc: pc1,
        ..regs
    }))
    &&& (byte == 0xE2 && spec_write_ok((0xFF00 + regs.c) as u16, regs.a) ==> r == Ok::<
        u8,
        EmuError,
    >(2) && nr == regs && spec_written(mem, nm, (0xFF00 + regs.c) as u16, regs.a))
    &&& (byte == 0xF2 && spec_read_ok((0xFF00 + regs.c) as u16) ==> r == Ok::<u8, EmuError>(2)
        && nm == mem && nr == (Registers {
        a: spec_read_val(mem, (0xFF00 + regs.c) as u16),
        ..regs
    }))
    &&& (byte == 0xEA && spec_read_ok(regs.pc) && spec_read_ok(pc1) && spec_write_ok(
        addr16,
        regs.a,
    ) ==> r == Ok::<u8, EmuError>(4) && nr == (Registers { pc: pc2, ..regs }) && spec_written(
        mem,
        nm,
        addr16,
        regs.a,
    ))
    &&& (byte == 0xFA && spec_read_ok(regs.pc) && spec_read_ok(pc1) && spec_read_ok(addr16) ==> r
        == Ok::<u8, EmuError>(4) && nm == mem && nr == (Registers {
        a: spec_read_val(mem, addr16),
        pc: pc2,
        ..regs
    }))
    &&& (byte == 0xE8 && spec_read_ok(regs.pc) ==> r == Ok::<u8, EmuError>(4) && nm == mem && nr
        == (Registers {
        sp: vstd::wrapping::u16_specs::wrapping_add_signed(
            regs.sp,
            (spec_read_val(mem, regs.pc) as i8) as i16,
        ),
        zf: false,
        nf: false,
        hf: (regs.sp & 0xF) + (spec_read_val(mem, regs.pc) & 0xF) > 0xF,
        cf: (regs.sp & 0xFF) + spec_read_val(mem, regs.pc) > 0xFF,
        pc: pc1,
        ..regs
    }))
    &&& (byte == 0xCB && spec_read_ok(regs.pc) ==> spec_cb_effect(
        spec_read_val(mem, regs.pc),
        Registers { pc: pc1, ..regs },
        mem,
        nr,
        nm,
        r,
    ))
    &&& (byte == 0xF8 && spec_read_ok(regs.pc) ==> r == Ok::<u8, EmuError>(3) && nm == mem && nr
        == (Registers {
        h: hi8(
            vstd::wrapping::u16_specs::wrapping_add_signed(
                regs.sp,
                (spec_read_val(mem, regs.pc) as i8) as i16,
            ),
        ),
        l: lo8(
            vstd::wrapping::u16_specs::wrapping_add_signed(
                regs.sp,
                (spec_read_val(mem, regs.pc) as i8) as i16,
            ),
        ),
        zf: false,
        nf: false,
        hf: (regs.sp & 0xF) + (spec_read_val(mem, regs.pc) & 0xF) > 0xF,
        cf: (regs.sp & 0xFF) + spec_read_val(mem, regs.pc) > 0xFF,
        pc: pc1,
        ..regs
    }))
}


/// The result byte of a CB rotate, shift or swap, the operation indexed
/// as in bits 5..3 of the prefix byte: RLC, RRC, RL, RR, SLA, SRA, SWAP,
/// SRL. `cf` is the carry going in (used by RL and RR).
pub open spec fn spec_cb_shift(op: u8, v: u8, cf: bool) -> u8 {
    if op == 0 {
        (v << 1) | (v >> 7)
    } else if op == 1 {
        (v >> 1) | (v << 7)
    } else if op == 2 {
        (v << 1) | (if cf {
            1u8
        } else {
            0u8
        })
    } else if op == 3 {
        (v >> 1) | (if cf {
            0x80u8
        } else {
            0u8
        })
    } else if op == 4 {
        v << 1
    } else if op == 5 {
        (v >> 1) | (v & 0x80)
    } else if op == 6 {
        ((v & 0xF) << 4) | (v >> 4)
    } else {
        v >> 1
    }
}

/// The carry a CB rotate, shift or swap leaves: the ejected bit, or clear
/// for SWAP.
pub open spec fn spec_cb_carry(op: u8, v: u8) -> bool {
    if op == 0 || op == 2 || op == 4 {
        v >> 7 == 1
    } else if op == 6 {
        false
    } else {
        v & 1 == 1
    }
}

/// The exact semantics of the CB-prefixed instructions, given the prefix
/// operand byte `cb`: rotates, shifts and SWAP, then BIT, RES and SET, on
/// a register or through (HL).
pub open spec fn spec_cb_effect(
    cb: u8,
    regs: Registers,
    mem: Memory,
    nr: Registers,
    nm: Memory,
    r: Result<u8, EmuError>,
) -> bool {
    let reg = Register::spec_from_bits(cb & 7);
    let op = (cb >> 3) & 7;
    let bit = (cb >> 3) & 7;
    let v_reg = regs.spec_read_register(reg);
    let hl = regs.spec_hl();
    let v_hl = spec_read_val(mem, hl);
    &&& (cb < 0x40 && reg != Register::HL_MEM ==> r == Ok::<u8, EmuError>(2) && nm == mem && nr
        == (Registers {
        zf: spec_cb_shift(op, v_reg, regs.cf) == 0,
        nf: false,
        hf: false,
        cf: spec_cb_carry(op, v_reg),
        ..regs
    }).spec_write_register(reg, spec_cb_shift(op, v_reg, regs.cf)))
    &&& (cb < 0x40 && reg == Register::HL_MEM && spec_read_ok(hl) && spec_write_ok(
        hl,
        spec_cb_shift(op, v_hl, regs.cf),
    ) ==> r == Ok::<u8, EmuError>(4) && nr == (Registers {
        zf: spec_cb_shift(op, v_hl, regs.cf) == 0,
        nf: false,
        hf: false,
        cf: spec_cb_carry(op, v_hl),
        ..regs
    }) && spec_written(mem, nm, hl, spec_cb_shift(op, v_hl, regs.cf)))
    &&& (0x40 <= cb < 0x80 && reg != Register::HL_MEM ==> r == Ok::<u8, EmuError>(2) && nm == mem
        && nr == (Registers { zf: (v_reg >> bit) & 1 == 0, nf: false, hf: true, ..regs }))
    &&& (0x40 <= cb < 0x80 && reg == Register::HL_MEM && spec_read_ok(hl) ==> r == Ok::<
        u8,
        EmuError,
    >(3) && nm == mem && nr == (Registers {
        zf: (v_hl >> bit) & 1 == 0,
        nf: false,
        hf: true,
        ..regs
    }))
    &&& (0x80 <= cb < 0xC0 && reg != Register::HL_MEM ==> r == Ok::<u8, EmuError>(2) && nm == mem
        && nr == regs.spec_write_register(reg, v_reg & !(1u8 << bit)))
    &&& (0x80 <= cb < 0xC0 && reg == Register::HL_MEM && spec_read_ok(hl) && spec_write_ok(
        hl,
        v_hl & !(1u8 << bit),
    ) ==> r == Ok::<u8, EmuError>(4) && nr == regs && spec_written(
        mem,
        nm,
        hl,
        v_hl & !(1u8 << bit),
    ))
    &&& (0xC0 <= cb && reg != Register::HL_MEM ==> r == Ok::<u8, EmuError>(2) && nm == mem && nr
        == regs.spec_write_register(reg, v_reg | (1u8 << bit)))
    &&& (0xC0 <= cb && reg == Register::HL_MEM && spec_read_ok(hl) && spec_write_ok(
        hl,
        v_hl | (1u8 << bit),
    ) ==> r == Ok::<u8, EmuError>(4) && nr == regs && spec_written(mem, nm, hl, v_hl | (1u8 << bit)))
}

/// The exact semantics the decoder guarantees for the instructions that
/// touch only the register file (and, for immediates, read operand bytes
/// at PC, or, for POP and RET, read the stack): how the register file and
/// the returned cycle count follow from the opcode. Instructions that
/// write memory are related through the bus contracts instead.
pub open spec fn spec_instruction_effect(
    byte: u8,
    regs: Registers,
    mem: Memory,
    nr: Registers,
    nm: Memory,
    r: Result<u8, EmuError>,
) -> bool {
    &&& spec_q0_effect(byte, regs, mem, nr, nm, r)
    &&& spec_q1_effect(byte, regs, mem, nr, nm, r)
    &&& spec_q2_effect(byte, regs, mem, nr, nm, r)
    &&& spec_q3_effect(byte, regs, mem, nr, nm, r)
    &&& spec_q3_mem_effect(byte, regs, mem, nr, nm, r)
}


/// The quadrant-11 opcodes the memory-side decoder handles: those that
/// write memory or carry the CB prefix, and the illegal holes.
pub open spec fn spec_q3_mem_opcode(b: u8) -> bool {
    ||| b == 0xC4 || b == 0xCC || b == 0xD4 || b == 0xDC
    ||| b == 0xC5 || b == 0xD5 || b == 0xE5 || b == 0xF5
    ||| b == 0xCD
    ||| b == 0xC7 || b == 0xCF || b == 0xD7 || b == 0xDF
    ||| b == 0xE7 || b == 0xEF || b == 0xF7 || b == 0xFF
    ||| b == 0xE0 || b == 0xF0 || b == 0xE8 || b == 0xF8
    ||| b == 0xE2 || b == 0xF2 || b == 0xEA || b == 0xFA
    ||| b == 0xCB
    ||| b == 0xC0 || b == 0xC8 || b == 0xD0 || b == 0xD8
    ||| b == 0xC2 || b == 0xCA || b == 0xD2 || b == 0xDA
    ||| b == 0xD9
    ||| spec_illegal_opcode(b)
}


/// The quadrant-00 opcodes outside the one-byte miscellany: the 16-bit
/// loads and arithmetic and the indirect accumulator loads, or further on,
/// the 8-bit increments, loads and relative jumps.
pub open spec fn spec_q0_ops_opcode(b: u8) -> bool {
    b < 0x40 && !(b == 0x00 || b == 0x10 || b == 0x07 || b == 0x0F || b == 0x17 || b == 0x1F
        || b == 0x27 || b == 0x2F || b == 0x37 || b == 0x3F)
}

/// The quadrant-00 opcodes of the 8-bit increment, decrement and load
/// families and the relative jumps.
pub open spec fn spec_q0_r8_opcode(b: u8) -> bool {
    spec_q0_ops_opcode(b) && !(b == 0x08 || b == 0x01 || b == 0x11 || b == 0x21 || b == 0x31
        || b == 0x09 || b == 0x19 || b == 0x29 || b == 0x39 || b == 0x02 || b == 0x12 || b == 0x22
        || b == 0x32 || b == 0x0A || b == 0x1A || b == 0x2A || b == 0x3A || b == 0x03 || b == 0x13
        || b == 0x23 || b == 0x33 || b == 0x0B || b == 0x1B || b == 0x2B || b == 0x3B)
}


/// The state an interrupt service leaves: IME off, the source's IF bit
/// cleared, the return address pushed, PC at the source's vector.
pub open spec fn spec_serviced(pre: CPU, mid: CPU) -> bool {
    let h = spec_first_pending(
        pre.memory.interrupt.interrupt_enable.0,
        pre.memory.interrupt.interrupt_flag.0,
    )->Some_0;
    let cleared = Memory {
        interrupt: crate::interrupt::Interrupt {
            interrupt_enable: pre.memory.interrupt.interrupt_enable,
            interrupt_flag: crate::register::Register(
                pre.memory.interrupt.interrupt_flag.0 & !(1u8 << h.spec_index()),
            ),
        },
        ..pre.memory
    };
    &&& !mid.ime
    &&& mid.halted == pre.halted
    &&& mid.enable_interrupts == pre.enable_interrupts
    &&& mid.registers == (Registers {
        pc: h.spec_vector(),
        sp: vstd::wrapping::u16_specs::wrapping_sub(pre.registers.sp, 2),
        ..pre.registers
    })
    &&& spec_written2(
        cleared,
        mid.memory,
        vstd::wrapping::u16_specs::wrapping_sub(pre.registers.sp, 1),
        hi8(pre.registers.pc),
        vstd::wrapping::u16_specs::wrapping_sub(pre.registers.sp, 2),
        lo8(pre.registers.pc),
    )
}

/// The CPU part of one machine step, from an already-woken state: idle
/// halted for one cycle, service the pending interrupt for five, or fetch
/// one legal opcode and execute it under the decoder's guarantees.
pub open spec fn spec_cpu_phase(pre: CPU, mid: CPU, cycles: u8) -> bool {
    if pre.halted {
        mid == pre && cycles == 1
    } else if pre.ime && spec_first_pending(
        pre.memory.interrupt.interrupt_enable.0,
        pre.memory.interrupt.interrupt_flag.0,
    ) is Some {
        cycles == 5 && spec_serviced(pre, mid)
    } else {
        &&& 1 <= cycles <= 6
        &&& spec_read_ok(pre.registers.pc)
        &&& ({
            let b = spec_read_val(pre.memory, pre.registers.pc);
            let fr = Registers {
                pc: vstd::wrapping::u16_specs::wrapping_add(pre.registers.pc, 1),
                ..pre.registers
            };
            &&& !spec_illegal_opcode(b)
            &&& spec_instruction_effect(
                b,
                fr,
                pre.memory,
                mid.registers,
                mid.memory,
                Ok::<u8, EmuError>(cycles),
            )
            &&& mid.halted == (b == 0x76)
            &&& mid.ime == (b == 0xD9 || ((pre.ime || pre.enable_interrupts) && b != 0xF3))
            &&& (mid.enable_interrupts ==> b == 0xFB)
        })
    }
}

/// One whole machine step: a halted CPU with an interrupt pending wakes,
/// then the CPU idles, services or executes, and finally the timer and the
/// pixel unit advance by the cycles the step took.
pub open spec fn spec_machine_step(pre: CPU, post: CPU, cycles: u8) -> bool {
    let awake = if pre.halted && pre.memory.interrupt.spec_pending() {
        CPU { halted: false, ..pre }
    } else {
        pre
    };
    exists|mid: CPU, m1: Memory|
        {
            &&& spec_cpu_phase(awake, mid, cycles)
            &&& #[trigger] spec_timer_ticked(mid.memory, m1, cycles)
            &&& spec_gpu_ticked(m1, post.memory, cycles)
            &&& post == (CPU { memory: post.memory, ..mid })
        }
}

/// A run of machine steps with their cycle counts: one more state than
/// counts, consecutive states related by `spec_machine_step`.
pub open spec fn spec_step_trace(trace: Seq<CPU>, cyc: Seq<u8>) -> bool {
    &&& trace.len() == cyc.len() + 1
    &&& forall|i: int|
        0 <= i < cyc.len() ==> #[trigger] spec_machine_step(trace[i], trace[i + 1], cyc[i])
}

/// The machine cycles a run of steps takes in total.
pub open spec fn spec_cycle_sum(cyc: Seq<u8>) -> int
    decreases cyc.len(),
{
    if cyc.len() == 0 {
        0
    } else {
        spec_cycle_sum(cyc.drop_last()) + cyc.last()
    }
}

/// The CPU: the register file, the bus it owns, the interrupt master
/// enable with its delayed-EI latch, and the HALT latch.
pub struct CPU {
    pub registers: Registers,
    pub memory: Memory,
    pub enable_interrupts: bool,
    pub ime: bool,
    pub halted: bool,
}

impl CPU {
    pub open spec fn wf(self) -> bool {
        self.memory.wf()
    }

    /// Builds the machine around a 256-byte boot ROM image; registers
    /// cleared, interrupts ungated, not halted.
    pub fn new(bootrom: Vec<u8>) -> (r: Result<CPU, EmuError>)
        ensures
            r is Ok <==> bootrom@.len() == 0x100,
            r is Err ==> r == Err::<CPU, EmuError>(EmuError::BootromSize),
            r is Ok ==> ({
                let c = r->Ok_0;
                &&& c.wf()
                &&& c.registers == Registers::spec_new()
                &&& !c.enable_interrupts && !c.ime && !c.halted
                &&& c.memory.bootrom.enabled
                &&& c.memory.bootrom.code@ == bootrom@
            }),
    {
        let memory = match Memory::new(bootrom) {
            Ok(m) => m,
            Err(e) => {
                return Err(e);
            },
        };
        Ok(
            CPU {
                registers: Registers::new(),
                memory,
                enable_interrupts: false,
                ime: false,
                halted: false,
            },
        )
    }

    /// Loads the cartridge image onto the bus.
    pub fn load_rom(&mut self, data: Vec<u8>) -> (r: Result<(), EmuError>)
        requires
            old(self).wf(),
        ensures
            final(self).wf(),
            r is Ok <==> data@.len() == 0x8000,
            r is Err ==> *final(self) == *old(self) && r == Err::<(), EmuError>(
                EmuError::CartridgeSize,
            ),
            r is Ok ==> ({
                &&& *final(self) == (CPU { memory: final(self).memory, ..*old(self) })
                &&& final(self).memory == (Memory {
                    rom_bank_0: final(self).memory.rom_bank_0,
                    rom_bank_n: final(self).memory.rom_bank_n,
                    ..old(self).memory
                })
                &&& final(self).memory.rom_bank_0@ == data@.subrange(0, 0x4000)
                &&& final(self).memory.rom_bank_n@ == data@.subrange(0x4000, 0x8000)
            }),
    {
        self.memory.load_rom(data)
    }

    pub fn set_button(&mut self, button: Button)
        ensures
            *final(self) == (CPU { memory: final(self).memory, ..*old(self) }),
            final(self).memory == (Memory {
                joypad: final(self).memory.joypad,
                interrupt: final(self).memory.interrupt,
                ..old(self).memory
            }),
            final(self).memory.joypad.buttons.0 == old(self).memory.joypad.buttons.0 & !(1u8
                << button.spec_index()),
            final(self).memory.joypad.column == old(self).memory.joypad.column,
    {
        self.memory.set_button(button);
    }

    pub fn unset_button(&mut self, button: Button)
        ensures
            *final(self) == (CPU { memory: final(self).memory, ..*old(self) }),
            final(self).memory == (Memory {
                joypad: final(self).memory.joypad,
                ..old(self).memory
            }),
            final(self).memory.joypad.buttons.0 == old(self).memory.joypad.buttons.0 | (1u8
                << button.spec_index()),
            final(self).memory.joypad.column == old(self).memory.joypad.column,
    {
        self.memory.unset_button(button);
    }

    /// The 160 x 144 x 4 RGBA bytes of the last completed frame.
    pub fn get_framebuffer(&self) -> (r: &Vec<u8>)
        ensures
            r == self.memory.gpu.framebuffer,
    {
        &self.memory.gpu.framebuffer
    }

    /// Reads the byte at PC and moves PC past it.
    fn fetch_byte(&mut self) -> (r: Result<u8, EmuError>)
        requires
            old(self).wf(),
        ensures
            final(self).wf(),
            *final(self) == (CPU { registers: final(self).registers, ..*old(self) }),
            r is Ok <==> spec_read_ok(old(self).registers.pc),
            r is Ok ==> r->Ok_0 == spec_read_val(old(self).memory, old(self).registers.pc)
                && final(self).registers == (Registers {
                pc: vstd::wrapping::u16_specs::wrapping_add(old(self).registers.pc, 1),
                ..old(self).registers
            }),
            r is Err ==> *final(self) == *old(self) && r == Err::<u8, EmuError>(
                EmuError::UnknownIoRead(old(self).registers.pc),
            ),
    {
        let pc = self.registers.read_pc();
        let b = match self.memory.read(pc) {
            Ok(b) => b,
            Err(e) => {
                return Err(e);
            },
        };
        self.registers.increase_pc(1);
        Ok(b)
    }

    /// Reads the little-endian word at PC and moves PC past it.
    fn fetch_word(&mut self) -> (r: Result<u16, EmuError>)
        requires
            old(self).wf(),
        ensures
            final(self).wf(),
            *final(self) == (CPU { registers: final(self).registers, ..*old(self) }),
            final(self).registers == (Registers { pc: final(self).registers.pc, ..old(self).registers }),
            r is Err ==> !(r->Err_0 is IllegalOpcode),
            r is Ok <==> spec_read_ok(old(self).registers.pc) && spec_read_ok(
                vstd::wrapping::u16_specs::wrapping_add(old(self).registers.pc, 1),
            ),
            r is Ok ==> ({
                let pc = old(self).registers.pc;
                let pc1 = vstd::wrapping::u16_specs::wrapping_add(pc, 1);
                &&& r->Ok_0 == concat16(
                    spec_read_val(old(self).memory, pc1),
                    spec_read_val(old(self).memory, pc),
                )
                &&& final(self).registers.pc == vstd::wrapping::u16_specs::wrapping_add(pc, 2)
            }),
    {
        let lsb = match self.fetch_byte() {
            Ok(b) => b,
            Err(e) => {
                return Err(e);
            },
        };
        let msb = match self.fetch_byte() {
            Ok(b) => b,
            Err(e) => {
                return Err(e);
            },
        };
        Ok((msb as u16) << 8 | (lsb as u16))
    }

    /// Pushes a word: high byte at SP-1, low byte at SP-2, SP moved down
    /// by two with wrap.
    fn push_word(&mut self, value: u16) -> (r: Result<(), EmuError>)
        requires
            old(self).wf(),
        ensures
            final(self).wf(),
            *final(self) == (CPU {
                registers: final(self).registers,
                memory: final(self).memory,
                ..*old(self)
            }),
            !old(self).memory.bootrom.enabled ==> !final(self).memory.bootrom.enabled,
            final(self).memory.bootrom.code@ == old(self).memory.bootrom.code@,
            r is Err ==> !(r->Err_0 is IllegalOpcode),
            r is Ok <==> spec_write_ok(
                vstd::wrapping::u16_specs::wrapping_sub(old(self).registers.sp, 1),
                hi8(value),
            ) && spec_write_ok(
                vstd::wrapping::u16_specs::wrapping_sub(old(self).registers.sp, 2),
                lo8(value),
            ),
            r is Ok ==> ({
                &&& final(self).registers == (Registers {
                    sp: vstd::wrapping::u16_specs::wrapping_sub(old(self).registers.sp, 2),
                    ..old(self).registers
                })
                &&& spec_written2(
                    old(self).memory,
                    final(self).memory,
                    vstd::wrapping::u16_specs::wrapping_sub(old(self).registers.sp, 1),
                    hi8(value),
                    vstd::wrapping::u16_specs::wrapping_sub(old(self).registers.sp, 2),
                    lo8(value),
                )
            }),
    {
        let hi = (value >> 8) as u8;
        let lo = value as u8;
        self.registers.decrement_sp(1);
        let sp1 = self.registers.read_double_register(DoubleRegister::SP);
        match self.memory.write(sp1, hi) {
            Ok(()) => {},
            Err(e) => {
                return Err(e);
            },
        }
        let ghost mid = self.memory;
        self.registers.decrement_sp(1);
        let sp2 = self.registers.read_double_register(DoubleRegister::SP);
        match self.memory.write(sp2, lo) {
            Ok(()) => {},
            Err(e) => {
                return Err(e);
            },
        }
        proof {
            assert(spec_written(old(self).memory, mid, sp1, hi));
            assert(spec_written(mid, self.memory, sp2, lo));
        }
        Ok(())
    }

    /// Pops a word: low byte at SP, high byte at SP+1, SP moved up by two
    /// with wrap.
    fn pop_word(&mut self) -> (r: Result<u16, EmuError>)
        requires
            old(self).wf(),
        ensures
            final(self).wf(),
            *final(self) == (CPU { registers: final(self).registers, ..*old(self) }),
            final(self).registers == (Registers { sp: final(self).registers.sp, ..old(self).registers }),
            r is Err ==> !(r->Err_0 is IllegalOpcode),
            r is Ok <==> spec_read_ok(old(self).registers.sp) && spec_read_ok(
                vstd::wrapping::u16_specs::wrapping_add(old(self).registers.sp, 1),
            ),
            r is Ok ==> ({
                let sp = old(self).registers.sp;
                let sp1 = vstd::wrapping::u16_specs::wrapping_add(sp, 1);
                &&& r->Ok_0 == concat16(
                    spec_read_val(old(self).memory, sp1),
                    spec_read_val(old(self).memory, sp),
                )
                &&& final(self).registers.sp == vstd::wrapping::u16_specs::wrapping_add(sp, 2)
            }),
    {
        let sp = self.registers.read_double_register(DoubleRegister::SP);
        let lo = match self.memory.read(sp) {
            Ok(b) => b,
            Err(e) => {
                return Err(e);
            },
        };
        self.registers.increase_sp(1);
        let sp1 = self.registers.read_double_register(DoubleRegister::SP);
        let hi = match self.memory.read(sp1) {
            Ok(b) => b,
            Err(e) => {
                return Err(e);
            },
        };
        self.registers.increase_sp(1);
        Ok((hi as u16) << 8 | (lo as u16))
    }

    /// Reads an 8-bit operand by selector: a register directly, or the
    /// byte at (HL) for the memory placeholder. Returns the value and the
    /// machine cycles the access took.
    fn read_operand(&mut self, r: Register) -> (res: Result<(u8, u8), EmuError>)
        requires
            old(self).wf(),
        ensures
            final(self).wf(),
            *final(self) == *old(self),
            res is Err ==> !(res->Err_0 is IllegalOpcode),
            r != Register::HL_MEM ==> res == Ok::<(u8, u8), EmuError>(
                (old(self).registers.spec_read_register(r), 1),
            ),
            r == Register::HL_MEM ==> ({
                let hl = old(self).registers.spec_hl();
                &&& (res is Ok <==> spec_read_ok(hl))
                &&& (res is Ok ==> res->Ok_0 == (spec_read_val(old(self).memory, hl), 2u8))
            }),
    {
        match r {
            Register::HL_MEM => {
                let hl = self.registers.read_double_register(DoubleRegister::HL);
                match self.memory.read(hl) {
                    Ok(v) => Ok((v, 2)),
                    Err(e) => Err(e),
                }
            },
            _ => Ok((self.registers.read_register(r), 1)),
        }
    }

    /// Writes an 8-bit operand by selector: a register directly, or the
    /// byte at (HL) for the memory placeholder.
    fn write_operand(&mut self, r: Register, value: u8) -> (res: Result<(), EmuError>)
        requires
            old(self).wf(),
        ensures
            final(self).wf(),
            *final(self) == (CPU {
                registers: final(self).registers,
                memory: final(self).memory,
                ..*old(self)
            }),
            !old(self).memory.bootrom.enabled ==> !final(self).memory.bootrom.enabled,
            final(self).memory.bootrom.code@ == old(self).memory.bootrom.code@,
            res is Err ==> !(res->Err_0 is IllegalOpcode),
            r != Register::HL_MEM ==> res is Ok && final(self).memory == old(self).memory
                && final(self).registers == old(self).registers.spec_write_register(r, value),
            r == Register::HL_MEM ==> ({
                let hl = old(self).registers.spec_hl();
                &&& final(self).registers == old(self).registers
                &&& (res is Ok <==> spec_write_ok(hl, value))
                &&& (res is Ok ==> spec_written(old(self).memory, final(self).memory, hl, value))
            }),
    {
        match r {
            Register::HL_MEM => {
                let hl = self.registers.read_double_register(DoubleRegister::HL);
                self.memory.write(hl, value)
            },
            _ => {
                self.registers.write_register(r, value);
                Ok(())
            },
        }
    }

    /// Decodes and executes one instruction whose opcode byte has already
    /// been fetched, and returns the machine cycles it took. A pending EI
    /// becomes effective first, so interrupts stay gated until after the
    /// instruction that follows EI. The eleven holes in the opcode map are
    /// refused as illegal.
    #[verifier::rlimit(100)]
    pub fn decode(&mut self, byte: u8) -> (r: Result<u8, EmuError>)
        requires
            old(self).wf(),
        ensures
            final(self).wf(),
            r is Ok ==> 1 <= r->Ok_0 <= 6,
            !old(self).memory.bootrom.enabled ==> !final(self).memory.bootrom.enabled,
            final(self).memory.bootrom.code@ == old(self).memory.bootrom.code@,
            spec_illegal_opcode(byte) ==> r == Err::<u8, EmuError>(EmuError::IllegalOpcode(byte))
                && *final(self) == (CPU {
                ime: old(self).ime || old(self).enable_interrupts,
                enable_interrupts: false,
                ..*old(self)
            }),
            !spec_illegal_opcode(byte) && r is Err ==> !(r->Err_0 is IllegalOpcode),
            final(self).enable_interrupts ==> byte == 0xFB,
            final(self).halted == (old(self).halted || byte == 0x76),
            final(self).ime == (byte == 0xD9 || ((old(self).ime || old(self).enable_interrupts)
                && byte != 0xF3)),
            spec_instruction_effect(
                byte,
                old(self).registers,
                old(self).memory,
                final(self).registers,
                final(self).memory,
                r,
            ),
    {
        if self.enable_interrupts {
            self.ime = true;
            self.enable_interrupts = false;
        }

        if byte < 0x40 {
            self.decode_q0(byte)
        } else if byte < 0x80 {
            self.decode_q1(byte)
        } else if byte < 0xC0 {
            self.decode_q2(byte)
        } else {
            self.decode_q3(byte)
        }
    }

    /// The quadrant-00 one-byte instructions: no-operations, the rotates of
    /// A, DAA and the flag operations; the rest of the quadrant is passed
    /// on.
    #[verifier::rlimit(100)]
    fn decode_q0(&mut self, byte: u8) -> (r: Result<u8, EmuError>)
        requires
            old(self).wf(),
            byte < 0x40,
        ensures
            final(self).wf(),
            r is Ok ==> 1 <= r->Ok_0 <= 6,
            !old(self).memory.bootrom.enabled ==> !final(self).memory.bootrom.enabled,
            final(self).memory.bootrom.code@ == old(self).memory.bootrom.code@,
            r is Err ==> !(r->Err_0 is IllegalOpcode),
            final(self).enable_interrupts == old(self).enable_interrupts,
            final(self).halted == old(self).halted,
            final(self).ime == old(self).ime,
            spec_q0_effect(
                byte,
                old(self).registers,
                old(self).memory,
                final(self).registers,
                final(self).memory,
                r,
            ),
    {
        match byte {
            0x00 => {
                // NOP
                Ok(1)
            },
            0x10 => {
                // STOP, taken as a one-cycle NOP
                Ok(1)
            },
            0x07 => {
                // RLCA
                self.registers.alu_rlca();
                Ok(1)
            },
            0x0F => {
                // RRCA
                self.registers.alu_rrca();
                Ok(1)
            },
            0x17 => {
                // RLA
                self.registers.alu_rla();
                Ok(1)
            },
            0x1F => {
                // RRA
                self.registers.alu_rra();
                Ok(1)
            },
            0x27 => {
                // DAA
                self.registers.alu_daa();
                Ok(1)
            },
            0x2F => {
                // CPL
                self.registers.alu_cpl();
                Ok(1)
            },
            0x37 => {
                // SCF
                self.registers.alu_scf();
                Ok(1)
            },
            0x3F => {
                // CCF
                self.registers.alu_ccf();
                Ok(1)
            },
            _ => {
                self.decode_q0_ops(byte)
            },
        }
    }


    /// The quadrant-00 16-bit loads and arithmetic and the indirect
    /// accumulator loads.
    #[verifier::rlimit(100)]
    fn decode_q0_ops(&mut self, byte: u8) -> (r: Result<u8, EmuError>)
        requires
            old(self).wf(),
            spec_q0_ops_opcode(byte),
        ensures
            final(self).wf(),
            r is Ok ==> 1 <= r->Ok_0 <= 6,
            !old(self).memory.bootrom.enabled ==> !final(self).memory.bootrom.enabled,
            final(self).memory.bootrom.code@ == old(self).memory.bootrom.code@,
            r is Err ==> !(r->Err_0 is IllegalOpcode),
            final(self).enable_interrupts == old(self).enable_interrupts,
            final(self).halted == old(self).halted,
            final(self).ime == old(self).ime,
            spec_q0_effect(
                byte,
                old(self).registers,
                old(self).memory,
                final(self).registers,
                final(self).memory,
                r,
            ),
    {
        match byte {
            0x08 => {
                // LD (u16), SP
                let address = match self.fetch_word() {
                    Ok(w) => w,
                    Err(e) => {
                        return Err(e);
                    },
                };
                let sp = self.registers.read_double_register(DoubleRegister::SP);
                match self.memory.write(address, sp as u8) {
                    Ok(()) => {},
                    Err(e) => {
                        return Err(e);
                    },
                }
                match self.memory.write(address.wrapping_add(1), (sp >> 8) as u8) {
                    Ok(()) => {},
                    Err(e) => {
                        return Err(e);
                    },
                }
                Ok(5)
            },
            0x01 | 0x11 | 0x21 | 0x31 => {
                // LD r16, u16
                let rr = DoubleRegister::from_bits((byte >> 4) & 3);
                let value = match self.fetch_word() {
                    Ok(w) => w,
                    Err(e) => {
                        return Err(e);
                    },
                };
                self.registers.write_double_register(rr, value);
                Ok(3)
            },
            0x09 | 0x19 | 0x29 | 0x39 => {
                // ADD HL, r16
                let rr = DoubleRegister::from_bits((byte >> 4) & 3);
                let value = self.registers.read_double_register(rr);
                self.registers.alu_add_hl(value);
                Ok(2)
            },
            0x02 | 0x12 | 0x22 | 0x32 => {
                // LD (r16mem), A
                let rr = DoubleRegisterMem::from_bits((byte >> 4) & 3);
                let data = self.registers.read_register(Register::A);
                let address = self.registers.read_double_register_mem(rr);
                match self.memory.write(address, data) {
                    Ok(()) => Ok(2),
                    Err(e) => Err(e),
                }
            },
            0x0A | 0x1A | 0x2A | 0x3A => {
                // LD A, (r16mem)
                let rr = DoubleRegisterMem::from_bits((byte >> 4) & 3);
                let address = self.registers.read_double_register_mem(rr);
                let data = match self.memory.read(address) {
                    Ok(b) => b,
                    Err(e) => {
                        return Err(e);
                    },
                };
                self.registers.write_register(Register::A, data);
                Ok(2)
            },
            0x03 | 0x13 | 0x23 | 0x33 => {
                // INC r16
                let rr = DoubleRegister::from_bits((byte >> 4) & 3);
                let value = self.registers.read_double_register(rr);
                self.registers.write_double_register(rr, value.wrapping_add(1));
                Ok(2)
            },
            0x0B | 0x1B | 0x2B | 0x3B => {
                // DEC r16
                let rr = DoubleRegister::from_bits((byte >> 4) & 3);
                let value = self.registers.read_double_register(rr);
                self.registers.write_double_register(rr, value.wrapping_sub(1));
                Ok(2)
            },
            _ => {
                self.decode_q0_r8(byte)
            },
        }
    }

    /// The quadrant-00 8-bit increments, decrements and loads, and the
    /// relative jumps.
    #[verifier::rlimit(100)]
    fn decode_q0_r8(&mut self, byte: u8) -> (r: Result<u8, EmuError>)
        requires
            old(self).wf(),
            spec_q0_r8_opcode(byte),
        ensures
            final(self).wf(),
            r is Ok ==> 1 <= r->Ok_0 <= 6,
            !old(self).memory.bootrom.enabled ==> !final(self).memory.bootrom.enabled,
            final(self).memory.bootrom.code@ == old(self).memory.bootrom.code@,
            r is Err ==> !(r->Err_0 is IllegalOpcode),
            final(self).enable_interrupts == old(self).enable_interrupts,
            final(self).halted == old(self).halted,
            final(self).ime == old(self).ime,
            spec_q0_effect(
                byte,
                old(self).registers,
                old(self).memory,
                final(self).registers,
                final(self).memory,
                r,
            ),
    {
        match byte {
            0x18 => {
                // JR i8
                let offset = match self.fetch_byte() {
                    Ok(b) => b,
                    Err(e) => {
                        return Err(e);
                    },
                };
                self.registers.offset_pc(offset as i8);
                Ok(3)
            },
            0x20 | 0x28 | 0x30 | 0x38 => {
                // JR cond, i8
                let offset = match self.fetch_byte() {
                    Ok(b) => b,
                    Err(e) => {
                        return Err(e);
                    },
                };
                let cond = Condition::from_bits((byte >> 3) & 3);
                if self.registers.check_condition(cond) {
                    self.registers.offset_pc(offset as i8);
                    Ok(3)
                } else {
                    Ok(2)
                }
            },
            0x04 | 0x0C | 0x14 | 0x1C | 0x24 | 0x2C | 0x34 | 0x3C => {
                proof {
                    assert(((byte >> 3) & 7 == 6) == (byte == 0x34)) by (bit_vector)
                        requires
                            byte == 0x04 || byte == 0x0C || byte == 0x14 || byte == 0x1C || byte == 0x24 || byte == 0x2C || byte == 0x34 || byte == 0x3C,
                    ;
                }
                // INC r8
                let reg = Register::from_bits((byte >> 3) & 7);
                let (value, c) = match self.read_operand(reg) {
                    Ok(v) => v,
                    Err(e) => {
                        return Err(e);
                    },
                };
                let result = self.registers.alu_inc(value);
                match self.write_operand(reg, result) {
                    Ok(()) => {},
                    Err(e) => {
                        return Err(e);
                    },
                }
                if c == 2 {
                    Ok(3)
                } else {
                    Ok(1)
                }
            },
            0x05 | 0x0D | 0x15 | 0x1D | 0x25 | 0x2D | 0x35 | 0x3D => {
                proof {
                    assert(((byte >> 3) & 7 == 6) == (byte == 0x35)) by (bit_vector)
                        requires
                            byte == 0x05 || byte == 0x0D || byte == 0x15 || byte == 0x1D || byte == 0x25 || byte == 0x2D || byte == 0x35 || byte == 0x3D,
                    ;
                }
                // DEC r8
                let reg = Register::from_bits((byte >> 3) & 7);
                let (value, c) = match self.read_operand(reg) {
                    Ok(v) => v,
                    Err(e) => {
                        return Err(e);
                    },
                };
                let result = self.registers.alu_dec(value);
                match self.write_operand(reg, result) {
                    Ok(()) => {},
                    Err(e) => {
                        return Err(e);
                    },
                }
                if c == 2 {
                    Ok(3)
                } else {
                    Ok(1)
                }
            },
            0x06 | 0x0E | 0x16 | 0x1E | 0x26 | 0x2E | 0x36 | 0x3E => {
                proof {
                    assert(((byte >> 3) & 7 == 6) == (byte == 0x36)) by (bit_vector)
                        requires
                            byte == 0x06 || byte == 0x0E || byte == 0x16 || byte == 0x1E || byte == 0x26 || byte == 0x2E || byte == 0x36 || byte == 0x3E,
                    ;
                }
                // LD r8, u8
                let reg = Register::from_bits((byte >> 3) & 7);
                let value = match self.fetch_byte() {
                    Ok(b) => b,
                    Err(e) => {
                        return Err(e);
                    },
                };
                match self.write_operand(reg, value) {
                    Ok(()) => {},
                    Err(e) => {
                        return Err(e);
                    },
                }
                if reg == Register::HL_MEM {
                    Ok(3)
                } else {
                    Ok(2)
                }
            },
            _ => {
                Err(EmuError::IllegalOpcode(byte))
            },
        }
    }

    /// The quadrant-01 instructions: register-to-register loads and HALT.
    #[verifier::rlimit(100)]
    fn decode_q1(&mut self, byte: u8) -> (r: Result<u8, EmuError>)
        requires
            old(self).wf(),
            0x40 <= byte < 0x80,
        ensures
            final(self).wf(),
            r is Ok ==> 1 <= r->Ok_0 <= 6,
            !old(self).memory.bootrom.enabled ==> !final(self).memory.bootrom.enabled,
            final(self).memory.bootrom.code@ == old(self).memory.bootrom.code@,
            r is Err ==> !(r->Err_0 is IllegalOpcode),
            final(self).enable_interrupts == old(self).enable_interrupts,
            final(self).halted == (old(self).halted || byte == 0x76),
            final(self).ime == old(self).ime,
            spec_q1_effect(
                byte,
                old(self).registers,
                old(self).memory,
                final(self).registers,
                final(self).memory,
                r,
            ),
    {
        match byte {
            0x76 => {
                // HALT
                self.halted = true;
                Ok(1)
            },
            0x40..=0x7F => {
                // LD r8, r8
                let dest = Register::from_bits((byte >> 3) & 7);
                let source = Register::from_bits(byte & 7);
                let (data, c) = match self.read_operand(source) {
                    Ok(v) => v,
                    Err(e) => {
                        return Err(e);
                    },
                };
                match self.write_operand(dest, data) {
                    Ok(()) => {},
                    Err(e) => {
                        return Err(e);
                    },
                }
                if dest == Register::HL_MEM || c == 2 {
                    Ok(2)
                } else {
                    Ok(1)
                }
            },
            _ => {
                Err(EmuError::IllegalOpcode(byte))
            },
        }
    }

    /// The quadrant-10 instructions: the eight-member ALU family on
    /// register operands.
    #[verifier::rlimit(100)]
    fn decode_q2(&mut self, byte: u8) -> (r: Result<u8, EmuError>)
        requires
            old(self).wf(),
            0x80 <= byte < 0xC0,
        ensures
            final(self).wf(),
            r is Ok ==> 1 <= r->Ok_0 <= 6,
            !old(self).memory.bootrom.enabled ==> !final(self).memory.bootrom.enabled,
            final(self).memory.bootrom.code@ == old(self).memory.bootrom.code@,
            r is Err ==> !(r->Err_0 is IllegalOpcode),
            final(self).enable_interrupts == old(self).enable_interrupts,
            final(self).halted == old(self).halted,
            final(self).ime == old(self).ime,
            spec_q2_effect(
                byte,
                old(self).registers,
                old(self).memory,
                final(self).registers,
                final(self).memory,
                r,
            ),
    {
        match byte {
            0x80..=0x87 => {
                // ADD A, r8
                let (data, c) = match self.read_operand(Register::from_bits(byte & 7)) {
                    Ok(v) => v,
                    Err(e) => {
                        return Err(e);
                    },
                };
                proof {
                    assert((byte >> 3) & 7 == 0) by (bit_vector)
                        requires
                            0x80 <= byte <= 0x87,
                    ;
                }
                self.registers.alu_add(data);
                Ok(c)
            },
            0x88..=0x8F => {
                // ADC A, r8
                let (data, c) = match self.read_operand(Register::from_bits(byte & 7)) {
                    Ok(v) => v,
                    Err(e) => {
                        return Err(e);
                    },
                };
                proof {
                    assert((byte >> 3) & 7 == 1) by (bit_vector)
                        requires
                            0x88 <= byte <= 0x8F,
                    ;
                }
                self.registers.alu_adc(data);
                Ok(c)
            },
            0x90..=0x97 => {
                // SUB A, r8
                let (data, c) = match self.read_operand(Register::from_bits(byte & 7)) {
                    Ok(v) => v,
                    Err(e) => {
                        return Err(e);
                    },
                };
                proof {
                    assert((byte >> 3) & 7 == 2) by (bit_vector)
                        requires
                            0x90 <= byte <= 0x97,
                    ;
                }
                self.registers.alu_sub(data);
                Ok(c)
            },
            0x98..=0x9F => {
                // SBC A, r8
                let (data, c) = match self.read_operand(Register::from_bits(byte & 7)) {
                    Ok(v) => v,
                    Err(e) => {
                        return Err(e);
                    },
                };
                proof {
                    assert((byte >> 3) & 7 == 3) by (bit_vector)
                        requires
                            0x98 <= byte <= 0x9F,
                    ;
                }
                self.registers.alu_sbc(data);
                Ok(c)
            },
            0xA0..=0xA7 => {
                // AND A, r8
                let (data, c) = match self.read_operand(Register::from_bits(byte & 7)) {
                    Ok(v) => v,
                    Err(e) => {
                        return Err(e);
                    },
                };
                proof {
                    assert((byte >> 3) & 7 == 4) by (bit_vector)
                        requires
                            0xA0 <= byte <= 0xA7,
                    ;
                }
                self.registers.alu_and(data);
                Ok(c)
            },
            0xA8..=0xAF => {
                // XOR A, r8
                let (data, c) = match self.read_operand(Register::from_bits(byte & 7)) {
                    Ok(v) => v,
                    Err(e) => {
                        return Err(e);
                    },
                };
                proof {
                    assert((byte >> 3) & 7 == 5) by (bit_vector)
                        requires
                            0xA8 <= byte <= 0xAF,
                    ;
                }
                self.registers.alu_xor(data);
                Ok(c)
            },
            0xB0..=0xB7 => {
                // OR A, r8
                let (data, c) = match self.read_operand(Register::from_bits(byte & 7)) {
                    Ok(v) => v,
                    Err(e) => {
                        return Err(e);
                    },
                };
                proof {
                    assert((byte >> 3) & 7 == 6) by (bit_vector)
                        requires
                            0xB0 <= byte <= 0xB7,
                    ;
                }
                self.registers.alu_or(data);
                Ok(c)
            },
            0xB8..=0xBF => {
                // CP A, r8
                let (data, c) = match self.read_operand(Register::from_bits(byte & 7)) {
                    Ok(v) => v,
                    Err(e) => {
                        return Err(e);
                    },
                };
                proof {
                    assert((byte >> 3) & 7 == 7) by (bit_vector)
                        requires
                            0xB8 <= byte <= 0xBF,
                    ;
                }
                self.registers.alu_cp(data);
                Ok(c)
            },
            _ => {
                Err(EmuError::IllegalOpcode(byte))
            },
        }
    }

    /// The quadrant-11 instructions: the register-file side (POP, RET,
    /// JP, JP HL, LD SP,HL, DI and EI) handled here, the immediate ALU
    /// family and the memory side passed on.
    #[verifier::rlimit(100)]
    fn decode_q3(&mut self, byte: u8) -> (r: Result<u8, EmuError>)
        requires
            old(self).wf(),
            0xC0 <= byte,
        ensures
            final(self).wf(),
            r is Ok ==> 1 <= r->Ok_0 <= 6,
            !old(self).memory.bootrom.enabled ==> !final(self).memory.bootrom.enabled,
            final(self).memory.bootrom.code@ == old(self).memory.bootrom.code@,
            spec_illegal_opcode(byte) ==> r == Err::<u8, EmuError>(EmuError::IllegalOpcode(byte))
                && *final(self) == *old(self),
            !spec_illegal_opcode(byte) && r is Err ==> !(r->Err_0 is IllegalOpcode),
            byte != 0xFB ==> final(self).enable_interrupts == old(self).enable_interrupts,
            byte == 0xFB ==> final(self).enable_interrupts,
            final(self).halted == old(self).halted,
            final(self).ime == (if byte == 0xF3 {
                false
            } else if byte == 0xD9 {
                true
            } else {
                old(self).ime
            }),
            spec_q3_effect(
                byte,
                old(self).registers,
                old(self).memory,
                final(self).registers,
                final(self).memory,
                r,
            ),
            spec_q3_mem_effect(
                byte,
                old(self).registers,
                old(self).memory,
                final(self).registers,
                final(self).memory,
                r,
            ),
    {
        match byte {
            0xC1 | 0xD1 | 0xE1 | 0xF1 => {
                // POP r16stk
                let rr = DoubleRegisterStack::from_bits((byte >> 4) & 3);
                let value = match self.pop_word() {
                    Ok(w) => w,
                    Err(e) => {
                        return Err(e);
                    },
                };
                self.registers.write_double_register_stack(rr, value);
                Ok(3)
            },
            0xC9 => {
                // RET
                let address = match self.pop_word() {
                    Ok(w) => w,
                    Err(e) => {
                        return Err(e);
                    },
                };
                self.registers.write_pc(address);
                Ok(4)
            },
            0xC3 => {
                // JP u16
                let address = match self.fetch_word() {
                    Ok(w) => w,
                    Err(e) => {
                        return Err(e);
                    },
                };
                self.registers.write_pc(address);
                Ok(4)
            },
            0xE9 => {
                // JP HL
                let address = self.registers.read_double_register(DoubleRegister::HL);
                self.registers.write_pc(address);
                Ok(1)
            },
            0xF9 => {
                // LD SP, HL
                let hl = self.registers.read_double_register(DoubleRegister::HL);
                self.registers.write_double_register(DoubleRegister::SP, hl);
                Ok(2)
            },
            0xF3 => {
                // DI
                self.ime = false;
                Ok(1)
            },
            0xFB => {
                // EI, effective after the next instruction
                self.enable_interrupts = true;
                Ok(1)
            },
            0xC6 | 0xCE | 0xD6 | 0xDE | 0xE6 | 0xEE | 0xF6 | 0xFE => {
                self.decode_q3_imm(byte)
            },
            _ => {
                self.decode_q3_mem(byte)
            },
        }
    }

    /// The immediate ALU instructions: the eight-member accumulator family
    /// on the operand byte at PC.
    #[verifier::rlimit(100)]
    fn decode_q3_imm(&mut self, byte: u8) -> (r: Result<u8, EmuError>)
        requires
            old(self).wf(),
            byte == 0xC6 || byte == 0xCE || byte == 0xD6 || byte == 0xDE || byte == 0xE6 || byte
                == 0xEE || byte == 0xF6 || byte == 0xFE,
        ensures
            final(self).wf(),
            r is Ok ==> 1 <= r->Ok_0 <= 6,
            !old(self).memory.bootrom.enabled ==> !final(self).memory.bootrom.enabled,
            final(self).memory.bootrom.code@ == old(self).memory.bootrom.code@,
            r is Err ==> !(r->Err_0 is IllegalOpcode),
            final(self).enable_interrupts == old(self).enable_interrupts,
            final(self).halted == old(self).halted,
            final(self).ime == old(self).ime,
            spec_read_ok(old(self).registers.pc) ==> r == Ok::<u8, EmuError>(2)
                && final(self).memory == old(self).memory && final(self).registers == spec_alu_op(
                (Registers {
                    pc: vstd::wrapping::u16_specs::wrapping_add(old(self).registers.pc, 1),
                    ..old(self).registers
                }),
                (byte >> 3) & 7,
                spec_read_val(old(self).memory, old(self).registers.pc),
            ),
    {
        match byte {
            0xC6 => {
                // ADD A, u8
                let value = match self.fetch_byte() {
                    Ok(b) => b,
                    Err(e) => {
                        return Err(e);
                    },
                };
                proof {
                    assert((byte >> 3) & 7 == 0) by (bit_vector)
                        requires
                            byte == 0xC6,
                    ;
                }
                self.registers.alu_add(value);
                Ok(2)
            },
            0xCE => {
                // ADC A, u8
                let value = match self.fetch_byte() {
                    Ok(b) => b,
                    Err(e) => {
                        return Err(e);
                    },
                };
                proof {
                    assert((byte >> 3) & 7 == 1) by (bit_vector)
                        requires
                            byte == 0xCE,
                    ;
                }
                self.registers.alu_adc(value);
                Ok(2)
            },
            0xD6 => {
                // SUB A, u8
                let value = match self.fetch_byte() {
                    Ok(b) => b,
                    Err(e) => {
                        return Err(e);
                    },
                };
                proof {
                    assert((byte >> 3) & 7 == 2) by (bit_vector)
                        requires
                            byte == 0xD6,
                    ;
                }
                self.registers.alu_sub(value);
                Ok(2)
            },
            0xDE => {
                // SBC A, u8
                let value = match self.fetch_byte() {
                    Ok(b) => b,
                    Err(e) => {
                        return Err(e);
                    },
                };
                proof {
                    assert((byte >> 3) & 7 == 3) by (bit_vector)
                        requires
                            byte == 0xDE,
                    ;
                }
                self.registers.alu_sbc(value);
                Ok(2)
            },
            0xE6 => {
                // AND A, u8
                let value = match self.fetch_byte() {
                    Ok(b) => b,
                    Err(e) => {
                        return Err(e);
                    },
                };
                proof {
                    assert((byte >> 3) & 7 == 4) by (bit_vector)
                        requires
                            byte == 0xE6,
                    ;
                }
                self.registers.alu_and(value);
                Ok(2)
            },
            0xEE => {
                // XOR A, u8
                let value = match self.fetch_byte() {
                    Ok(b) => b,
                    Err(e) => {
                        return Err(e);
                    },
                };
                proof {
                    assert((byte >> 3) & 7 == 5) by (bit_vector)
                        requires
                            byte == 0xEE,
                    ;
                }
                self.registers.alu_xor(value);
                Ok(2)
            },
            0xF6 => {
                // OR A, u8
                let value = match self.fetch_byte() {
                    Ok(b) => b,
                    Err(e) => {
                        return Err(e);
                    },
                };
                proof {
                    assert((byte >> 3) & 7 == 6) by (bit_vector)
                        requires
                            byte == 0xF6,
                    ;
                }
                self.registers.alu_or(value);
                Ok(2)
            },
            0xFE => {
                // CP A, u8
                let value = match self.fetch_byte() {
                    Ok(b) => b,
                    Err(e) => {
                        return Err(e);
                    },
                };
                proof {
                    assert((byte >> 3) & 7 == 7) by (bit_vector)
                        requires
                            byte == 0xFE,
                    ;
                }
                self.registers.alu_cp(value);
                Ok(2)
            },
            _ => {
                Err(EmuError::IllegalOpcode(byte))
            },
        }
    }

    /// The quadrant-11 instructions that branch, write memory or carry a
    /// prefix: conditional returns and jumps, calls, pushes, restarts,
    /// RETI, the CB prefix, and the illegal opcodes; the high-page loads
    /// and SP-relative arithmetic are passed on.
    #[verifier::rlimit(100)]
    fn decode_q3_mem(&mut self, byte: u8) -> (r: Result<u8, EmuError>)
        requires
            old(self).wf(),
            spec_q3_mem_opcode(byte),
        ensures
            final(self).wf(),
            r is Ok ==> 1 <= r->Ok_0 <= 6,
            !old(self).memory.bootrom.enabled ==> !final(self).memory.bootrom.enabled,
            final(self).memory.bootrom.code@ == old(self).memory.bootrom.code@,
            spec_illegal_opcode(byte) ==> r == Err::<u8, EmuError>(EmuError::IllegalOpcode(byte))
                && *final(self) == *old(self),
            !spec_illegal_opcode(byte) && r is Err ==> !(r->Err_0 is IllegalOpcode),
            final(self).enable_interrupts == old(self).enable_interrupts,
            final(self).halted == old(self).halted,
            final(self).ime == (if byte == 0xD9 {
                true
            } else {
                old(self).ime
            }),
            spec_q3_mem_effect(
                byte,
                old(self).registers,
                old(self).memory,
                final(self).registers,
                final(self).memory,
                r,
            ),
    {
        match byte {
            0xC4 | 0xCC | 0xD4 | 0xDC => {
                // CALL cond, u16
                let cond = Condition::from_bits((byte >> 3) & 3);
                let address = match self.fetch_word() {
                    Ok(w) => w,
                    Err(e) => {
                        return Err(e);
                    },
                };
                if self.registers.check_condition(cond) {
                    let pc = self.registers.read_pc();
                    match self.push_word(pc) {
                        Ok(()) => {},
                        Err(e) => {
                            return Err(e);
                        },
                    }
                    self.registers.write_pc(address);
                    Ok(6)
                } else {
                    Ok(3)
                }
            },
            0xC5 | 0xD5 | 0xE5 | 0xF5 => {
                // PUSH r16stk
                let rr = DoubleRegisterStack::from_bits((byte >> 4) & 3);
                let data = self.registers.read_double_register_stack(rr);
                match self.push_word(data) {
                    Ok(()) => Ok(4),
                    Err(e) => Err(e),
                }
            },
            0xCD => {
                // CALL u16
                let address = match self.fetch_word() {
                    Ok(w) => w,
                    Err(e) => {
                        return Err(e);
                    },
                };
                let pc = self.registers.read_pc();
                match self.push_word(pc) {
                    Ok(()) => {},
                    Err(e) => {
                        return Err(e);
                    },
                }
                self.registers.write_pc(address);
                Ok(6)
            },
            0xC7 | 0xCF | 0xD7 | 0xDF | 0xE7 | 0xEF | 0xF7 | 0xFF => {
                // RST tgt3
                let target: u16 = ((byte >> 3) & 7) as u16 * 8;
                let pc = self.registers.read_pc();
                match self.push_word(pc) {
                    Ok(()) => {},
                    Err(e) => {
                        return Err(e);
                    },
                }
                self.registers.write_pc(target);
                Ok(4)
            },
            0xCB => {
                self.decode_cb()
            },
            0xC0 | 0xC8 | 0xD0 | 0xD8 => {
                // RET cond
                let cond = Condition::from_bits((byte >> 3) & 3);
                if self.registers.check_condition(cond) {
                    let address = match self.pop_word() {
                        Ok(w) => w,
                        Err(e) => {
                            return Err(e);
                        },
                    };
                    self.registers.write_pc(address);
                    Ok(5)
                } else {
                    Ok(2)
                }
            },
            0xC2 | 0xCA | 0xD2 | 0xDA => {
                // JP cond, u16
                let cond = Condition::from_bits((byte >> 3) & 3);
                let address = match self.fetch_word() {
                    Ok(w) => w,
                    Err(e) => {
                        return Err(e);
                    },
                };
                if self.registers.check_condition(cond) {
                    self.registers.write_pc(address);
                    Ok(4)
                } else {
                    Ok(3)
                }
            },
            0xD9 => {
                // RETI: IME comes back immediately
                self.ime = true;
                let address = match self.pop_word() {
                    Ok(w) => w,
                    Err(e) => {
                        return Err(e);
                    },
                };
                self.registers.write_pc(address);
                Ok(4)
            },
            0xE0 | 0xF0 | 0xE8 | 0xF8 | 0xE2 | 0xF2 | 0xEA | 0xFA => {
                self.decode_q3_hi(byte)
            },
            _ => {
                Err(EmuError::IllegalOpcode(byte))
            },
        }
    }


    /// The high-page and absolute accumulator loads and the SP-relative
    /// arithmetic of quadrant 11.
    #[verifier::rlimit(100)]
    fn decode_q3_hi(&mut self, byte: u8) -> (r: Result<u8, EmuError>)
        requires
            old(self).wf(),
            byte == 0xE0 || byte == 0xF0 || byte == 0xE8 || byte == 0xF8 || byte == 0xE2 || byte
                == 0xF2 || byte == 0xEA || byte == 0xFA,
        ensures
            final(self).wf(),
            r is Ok ==> 1 <= r->Ok_0 <= 6,
            !old(self).memory.bootrom.enabled ==> !final(self).memory.bootrom.enabled,
            final(self).memory.bootrom.code@ == old(self).memory.bootrom.code@,
            r is Err ==> !(r->Err_0 is IllegalOpcode),
            final(self).enable_interrupts == old(self).enable_interrupts,
            final(self).halted == old(self).halted,
            final(self).ime == old(self).ime,
            spec_q3_mem_effect(
                byte,
                old(self).registers,
                old(self).memory,
                final(self).registers,
                final(self).memory,
                r,
            ),
    {
        match byte {
            0xE0 => {
                // LDH (u8), A
                let offset = match self.fetch_byte() {
                    Ok(b) => b,
                    Err(e) => {
                        return Err(e);
                    },
                };
                let a = self.registers.read_register(Register::A);
                match self.memory.write(0xFF00 + offset as u16, a) {
                    Ok(()) => Ok(3),
                    Err(e) => Err(e),
                }
            },
            0xF0 => {
                // LDH A, (u8)
                let offset = match self.fetch_byte() {
                    Ok(b) => b,
                    Err(e) => {
                        return Err(e);
                    },
                };
                let data = match self.memory.read(0xFF00 + offset as u16) {
                    Ok(b) => b,
                    Err(e) => {
                        return Err(e);
                    },
                };
                self.registers.write_register(Register::A, data);
                Ok(3)
            },
            0xE8 => {
                // ADD SP, i8
                let value = match self.fetch_byte() {
                    Ok(b) => b,
                    Err(e) => {
                        return Err(e);
                    },
                };
                self.registers.alu_add_sp(value);
                Ok(4)
            },
            0xF8 => {
                // LD HL, SP+i8
                let value = match self.fetch_byte() {
                    Ok(b) => b,
                    Err(e) => {
                        return Err(e);
                    },
                };
                self.registers.alu_ld_hl_sp(value);
                Ok(3)
            },
            0xE2 => {
                // LD (FF00+C), A
                let a = self.registers.read_register(Register::A);
                let c = self.registers.read_register(Register::C);
                match self.memory.write(0xFF00 + c as u16, a) {
                    Ok(()) => Ok(2),
                    Err(e) => Err(e),
                }
            },
            0xF2 => {
                // LD A, (FF00+C)
                let c = self.registers.read_register(Register::C);
                let data = match self.memory.read(0xFF00 + c as u16) {
                    Ok(b) => b,
                    Err(e) => {
                        return Err(e);
                    },
                };
                self.registers.write_register(Register::A, data);
                Ok(2)
            },
            0xEA => {
                // LD (u16), A
                let address = match self.fetch_word() {
                    Ok(w) => w,
                    Err(e) => {
                        return Err(e);
                    },
                };
                let a = self.registers.read_register(Register::A);
                match self.memory.write(address, a) {
                    Ok(()) => Ok(4),
                    Err(e) => Err(e),
                }
            },
            0xFA => {
                // LD A, (u16)
                let address = match self.fetch_word() {
                    Ok(w) => w,
                    Err(e) => {
                        return Err(e);
                    },
                };
                let data = match self.memory.read(address) {
                    Ok(b) => b,
                    Err(e) => {
                        return Err(e);
                    },
                };
                self.registers.write_register(Register::A, data);
                Ok(4)
            },
            _ => {
                Err(EmuError::IllegalOpcode(byte))
            },
        }
    }

    /// Decodes and executes one CB-prefixed instruction: rotates, shifts,
    /// SWAP, and the BIT, RES and SET bit operations.
    #[verifier::rlimit(100)]
    fn decode_cb(&mut self) -> (r: Result<u8, EmuError>)
        requires
            old(self).wf(),
        ensures
            final(self).wf(),
            r is Ok ==> 1 <= r->Ok_0 <= 6,
            !old(self).memory.bootrom.enabled ==> !final(self).memory.bootrom.enabled,
            final(self).memory.bootrom.code@ == old(self).memory.bootrom.code@,
            final(self).enable_interrupts == old(self).enable_interrupts,
            final(self).halted == old(self).halted,
            final(self).ime == old(self).ime,
            r is Err ==> !(r->Err_0 is IllegalOpcode),
            spec_read_ok(old(self).registers.pc) ==> spec_cb_effect(
                spec_read_val(old(self).memory, old(self).registers.pc),
                Registers {
                    pc: vstd::wrapping::u16_specs::wrapping_add(old(self).registers.pc, 1),
                    ..old(self).registers
                },
                old(self).memory,
                final(self).registers,
                final(self).memory,
                r,
            ),
    {
        let cb = match self.fetch_byte() {
            Ok(b) => b,
            Err(e) => {
                return Err(e);
            },
        };
        let reg = Register::from_bits(cb & 7);
        proof {
            assert((cb >> 3) & 7 < 8) by (bit_vector);
        }
        match cb {
            0x00..=0x07 => {
                proof {
                    assert((cb >> 3) & 7 == 0) by (bit_vector)
                        requires
                            0x00 <= cb <= 0x07,
                    ;
                }
                // RLC r8
                let (value, c) = match self.read_operand(reg) {
                    Ok(v) => v,
                    Err(e) => {
                        return Err(e);
                    },
                };
                let result = self.registers.cb_rlc(value);
                match self.write_operand(reg, result) {
                    Ok(()) => {},
                    Err(e) => {
                        return Err(e);
                    },
                }
                if c == 2 {
                    Ok(4)
                } else {
                    Ok(2)
                }
            },
            0x08..=0x0F => {
                proof {
                    assert((cb >> 3) & 7 == 1) by (bit_vector)
                        requires
                            0x08 <= cb <= 0x0F,
                    ;
                }
                // RRC r8
                let (value, c) = match self.read_operand(reg) {
                    Ok(v) => v,
                    Err(e) => {
                        return Err(e);
                    },
                };
                let result = self.registers.cb_rrc(value);
                match self.write_operand(reg, result) {
                    Ok(()) => {},
                    Err(e) => {
                        return Err(e);
                    },
                }
                if c == 2 {
                    Ok(4)
                } else {
                    Ok(2)
                }
            },
            0x10..=0x17 => {
                proof {
                    assert((cb >> 3) & 7 == 2) by (bit_vector)
                        requires
                            0x10 <= cb <= 0x17,
                    ;
                }
                // RL r8
                let (value, c) = match self.read_operand(reg) {
                    Ok(v) => v,
                    Err(e) => {
                        return Err(e);
                    },
                };
                let result = self.registers.cb_rl(value);
                match self.write_operand(reg, result) {
                    Ok(()) => {},
                    Err(e) => {
                        return Err(e);
                    },
                }
                if c == 2 {
                    Ok(4)
                } else {
                    Ok(2)
                }
            },
            0x18..=0x1F => {
                proof {
                    assert((cb >> 3) & 7 == 3) by (bit_vector)
                        requires
                            0x18 <= cb <= 0x1F,
                    ;
                }
                // RR r8
                let (value, c) = match self.read_operand(reg) {
                    Ok(v) => v,
                    Err(e) => {
                        return Err(e);
                    },
                };
                let result = self.registers.cb_rr(value);
                match self.write_operand(reg, result) {
                    Ok(()) => {},
                    Err(e) => {
                        return Err(e);
                    },
                }
                if c == 2 {
                    Ok(4)
                } else {
                    Ok(2)
                }
            },
            0x20..=0x27 => {
                proof {
                    assert((cb >> 3) & 7 == 4) by (bit_vector)
                        requires
                            0x20 <= cb <= 0x27,
                    ;
                }
                // SLA r8
                let (value, c) = match self.read_operand(reg) {
                    Ok(v) => v,
                    Err(e) => {
                        return Err(e);
                    },
                };
                let result = self.registers.cb_sla(value);
                match self.write_operand(reg, result) {
                    Ok(()) => {},
                    Err(e) => {
                        return Err(e);
                    },
                }
                if c == 2 {
                    Ok(4)
                } else {
                    Ok(2)
                }
            },
            0x28..=0x2F => {
                proof {
                    assert((cb >> 3) & 7 == 5) by (bit_vector)
                        requires
                            0x28 <= cb <= 0x2F,
                    ;
                }
                // SRA r8
                let (value, c) = match self.read_operand(reg) {
                    Ok(v) => v,
                    Err(e) => {
                        return Err(e);
                    },
                };
                let result = self.registers.cb_sra(value);
                match self.write_operand(reg, result) {
                    Ok(()) => {},
                    Err(e) => {
                        return Err(e);
                    },
                }
                if c == 2 {
                    Ok(4)
                } else {
                    Ok(2)
                }
            },
            0x30..=0x37 => {
                proof {
                    assert((cb >> 3) & 7 == 6) by (bit_vector)
                        requires
                            0x30 <= cb <= 0x37,
                    ;
                }
                // SWAP r8
                let (value, c) = match self.read_operand(reg) {
                    Ok(v) => v,
                    Err(e) => {
                        return Err(e);
                    },
                };
                let result = self.registers.cb_swap(value);
                match self.write_operand(reg, result) {
                    Ok(()) => {},
                    Err(e) => {
                        return Err(e);
                    },
                }
                if c == 2 {
                    Ok(4)
                } else {
                    Ok(2)
                }
            },
            0x38..=0x3F => {
                proof {
                    assert((cb >> 3) & 7 == 7) by (bit_vector)
                        requires
                            0x38 <= cb <= 0x3F,
                    ;
                }
                // SRL r8
                let (value, c) = match self.read_operand(reg) {
                    Ok(v) => v,
                    Err(e) => {
                        return Err(e);
                    },
                };
                let result = self.registers.cb_srl(value);
                match self.write_operand(reg, result) {
                    Ok(()) => {},
                    Err(e) => {
                        return Err(e);
                    },
                }
                if c == 2 {
                    Ok(4)
                } else {
                    Ok(2)
                }
            },
            0x40..=0x7F => {
                // BIT b3, r8
                let bit = (cb >> 3) & 7;
                let (value, c) = match self.read_operand(reg) {
                    Ok(v) => v,
                    Err(e) => {
                        return Err(e);
                    },
                };
                self.registers.cb_bit(bit, value);
                if c == 2 {
                    Ok(3)
                } else {
                    Ok(2)
                }
            },
            0x80..=0xBF => {
                // RES b3, r8
                let bit = (cb >> 3) & 7;
                let (value, c) = match self.read_operand(reg) {
                    Ok(v) => v,
                    Err(e) => {
                        return Err(e);
                    },
                };
                match self.write_operand(reg, value & !(1u8 << bit)) {
                    Ok(()) => {},
                    Err(e) => {
                        return Err(e);
                    },
                }
                if c == 2 {
                    Ok(4)
                } else {
                    Ok(2)
                }
            },
            0xC0..=0xFF => {
                // SET b3, r8
                let bit = (cb >> 3) & 7;
                let (value, c) = match self.read_operand(reg) {
                    Ok(v) => v,
                    Err(e) => {
                        return Err(e);
                    },
                };
                match self.write_operand(reg, value | (1u8 << bit)) {
                    Ok(()) => {},
                    Err(e) => {
                        return Err(e);
                    },
                }
                if c == 2 {
                    Ok(4)
                } else {
                    Ok(2)
                }
            },
        }
    }

    /// Pushes PC and jumps to an interrupt handler's vector.
    fn jump_interrupt(&mut self, target: u16) -> (r: Result<(), EmuError>)
        requires
            old(self).wf(),
        ensures
            final(self).wf(),
            *final(self) == (CPU {
                registers: final(self).registers,
                memory: final(self).memory,
                ..*old(self)
            }),
            !old(self).memory.bootrom.enabled ==> !final(self).memory.bootrom.enabled,
            final(self).memory.bootrom.code@ == old(self).memory.bootrom.code@,
            r is Err ==> !(r->Err_0 is IllegalOpcode),
            r is Ok <==> spec_write_ok(
                vstd::wrapping::u16_specs::wrapping_sub(old(self).registers.sp, 1),
                hi8(old(self).registers.pc),
            ) && spec_write_ok(
                vstd::wrapping::u16_specs::wrapping_sub(old(self).registers.sp, 2),
                lo8(old(self).registers.pc),
            ),
            r is Ok ==> ({
                &&& final(self).registers == (Registers {
                    pc: target,
                    sp: vstd::wrapping::u16_specs::wrapping_sub(old(self).registers.sp, 2),
                    ..old(self).registers
                })
                &&& spec_written2(
                    old(self).memory,
                    final(self).memory,
                    vstd::wrapping::u16_specs::wrapping_sub(old(self).registers.sp, 1),
                    hi8(old(self).registers.pc),
                    vstd::wrapping::u16_specs::wrapping_sub(old(self).registers.sp, 2),
                    lo8(old(self).registers.pc),
                )
            }),
    {
        let pc = self.registers.read_pc();
        match self.push_word(pc) {
            Ok(()) => {},
            Err(e) => {
                return Err(e);
            },
        }
        self.registers.write_pc(target);
        Ok(())
    }

    /// Services the highest-priority enabled-and-requested interrupt, if
    /// any: clears IME and the source's IF bit, pushes PC and jumps to the
    /// source's vector. Returns whether a source was serviced.
    fn handle_interrupts(&mut self) -> (r: Result<bool, EmuError>)
        requires
            old(self).wf(),
        ensures
            final(self).wf(),
            *final(self) == (CPU {
                registers: final(self).registers,
                memory: final(self).memory,
                ime: final(self).ime,
                ..*old(self)
            }),
            !old(self).memory.bootrom.enabled ==> !final(self).memory.bootrom.enabled,
            final(self).memory.bootrom.code@ == old(self).memory.bootrom.code@,
            r is Err ==> !(r->Err_0 is IllegalOpcode),
            r is Ok <==> (spec_first_pending(
                old(self).memory.interrupt.interrupt_enable.0,
                old(self).memory.interrupt.interrupt_flag.0,
            ) is None || (spec_write_ok(
                vstd::wrapping::u16_specs::wrapping_sub(old(self).registers.sp, 1),
                hi8(old(self).registers.pc),
            ) && spec_write_ok(
                vstd::wrapping::u16_specs::wrapping_sub(old(self).registers.sp, 2),
                lo8(old(self).registers.pc),
            ))),
            r is Ok ==> (r->Ok_0 <==> spec_first_pending(
                old(self).memory.interrupt.interrupt_enable.0,
                old(self).memory.interrupt.interrupt_flag.0,
            ) is Some),
            r == Ok::<bool, EmuError>(false) ==> *final(self) == *old(self),
            r == Ok::<bool, EmuError>(true) ==> ({
                let h = spec_first_pending(
                    old(self).memory.interrupt.interrupt_enable.0,
                    old(self).memory.interrupt.interrupt_flag.0,
                )->Some_0;
                let cleared = Memory {
                    interrupt: crate::interrupt::Interrupt {
                        interrupt_enable: old(self).memory.interrupt.interrupt_enable,
                        interrupt_flag: crate::register::Register(
                            old(self).memory.interrupt.interrupt_flag.0 & !(1u8 << h.spec_index()),
                        ),
                    },
                    ..old(self).memory
                };
                &&& !final(self).ime
                &&& final(self).registers == (Registers {
                    pc: h.spec_vector(),
                    sp: vstd::wrapping::u16_specs::wrapping_sub(old(self).registers.sp, 2),
                    ..old(self).registers
                })
                &&& spec_written2(
                    cleared,
                    final(self).memory,
                    vstd::wrapping::u16_specs::wrapping_sub(old(self).registers.sp, 1),
                    hi8(old(self).registers.pc),
                    vstd::wrapping::u16_specs::wrapping_sub(old(self).registers.sp, 2),
                    lo8(old(self).registers.pc),
                )
            }),
    {
        let ie = self.memory.interrupt.read_interrupt_enable();
        let iff = self.memory.interrupt.read_interrupt_flag();
        let pending = ie & iff;
        if pending & 1 != 0 {
            self.ime = false;
            self.memory.interrupt.unset_if_bit(InterruptHandler::VBlank);
            match self.jump_interrupt(0x40) {
                Ok(()) => Ok(true),
                Err(e) => Err(e),
            }
        } else if pending & 2 != 0 {
            self.ime = false;
            self.memory.interrupt.unset_if_bit(InterruptHandler::LCD);
            match self.jump_interrupt(0x48) {
                Ok(()) => Ok(true),
                Err(e) => Err(e),
            }
        } else if pending & 4 != 0 {
            self.ime = false;
            self.memory.interrupt.unset_if_bit(InterruptHandler::Timer);
            match self.jump_interrupt(0x50) {
                Ok(()) => Ok(true),
                Err(e) => Err(e),
            }
        } else if pending & 8 != 0 {
            self.ime = false;
            self.memory.interrupt.unset_if_bit(InterruptHandler::Serial);
            match self.jump_interrupt(0x58) {
                Ok(()) => Ok(true),
                Err(e) => Err(e),
            }
        } else if pending & 16 != 0 {
            self.ime = false;
            self.memory.interrupt.unset_if_bit(InterruptHandler::Joypad);
            match self.jump_interrupt(0x60) {
                Ok(()) => Ok(true),
                Err(e) => Err(e),
            }
        } else {
            Ok(false)
        }
    }

    /// One machine step: wake from HALT when an interrupt is pending, then
    /// either service one interrupt (five cycles), execute one instruction,
    /// or idle halted for one cycle; finally advance the timer and the
    /// pixel unit by the cycles spent.
    pub fn step(&mut self) -> (r: Result<u8, EmuError>)
        requires
            old(self).wf(),
        ensures
            final(self).wf(),
            r is Ok ==> 1 <= r->Ok_0 <= 6,
            !old(self).memory.bootrom.enabled ==> !final(self).memory.bootrom.enabled,
            final(self).memory.bootrom.code@ == old(self).memory.bootrom.code@,
            old(self).halted && !old(self).memory.interrupt.spec_pending() ==> r == Ok::<
                u8,
                EmuError,
            >(1) && final(self).registers == old(self).registers && final(self).halted
                && crate::gpu::spec_stepped(old(self).memory.gpu, final(self).memory.gpu, 1),
            ({
                let awake = !old(self).halted || old(self).memory.interrupt.spec_pending();
                let pending = spec_first_pending(
                    old(self).memory.interrupt.interrupt_enable.0,
                    old(self).memory.interrupt.interrupt_flag.0,
                );
                awake && old(self).ime && pending is Some && r is Ok ==> r == Ok::<u8, EmuError>(5)
                    && !final(self).ime && final(self).registers == (Registers {
                    pc: pending->Some_0.spec_vector(),
                    sp: vstd::wrapping::u16_specs::wrapping_sub(old(self).registers.sp, 2),
                    ..old(self).registers
                })
            }),
            r is Ok ==> spec_machine_step(*old(self), *final(self), r->Ok_0),
    {
        let mut cycles: u8 = 1;
        if self.halted && self.memory.interrupt.is_pending() {
            self.halted = false;
        }
        let ghost awake = *self;
        if !self.halted {
            let mut serviced = false;
            if self.ime {
                serviced = match self.handle_interrupts() {
                    Ok(s) => s,
                    Err(e) => {
                        return Err(e);
                    },
                };
            }
            if serviced {
                cycles = 5;
            } else {
                let byte = match self.fetch_byte() {
                    Ok(b) => b,
                    Err(e) => {
                        return Err(e);
                    },
                };
                cycles = match self.decode(byte) {
                    Ok(c) => c,
                    Err(e) => {
                        return Err(e);
                    },
                };
            }
        }
        let ghost mid = *self;
        proof {
            assert(spec_cpu_phase(awake, mid, cycles));
        }
        self.memory.update_timer(cycles);
        let ghost m1 = self.memory;
        self.memory.update_gpu(cycles);
        proof {
            assert(spec_timer_ticked(mid.memory, m1, cycles));
            assert(spec_gpu_ticked(m1, self.memory, cycles));
        }
        Ok(cycles)
    }

    /// Runs one frame: machine steps until 17,556 machine cycles (one
    /// VBlank period of 70,224 clock ticks) have accumulated.
    pub fn update(&mut self) -> (r: Result<(), EmuError>)
        requires
            old(self).wf(),
        ensures
            final(self).wf(),
            !old(self).memory.bootrom.enabled ==> !final(self).memory.bootrom.enabled,
            final(self).memory.bootrom.code@ == old(self).memory.bootrom.code@,
            r is Ok ==> exists|trace: Seq<CPU>, cyc: Seq<u8>|
                #[trigger] spec_step_trace(trace, cyc) && trace.first() == *old(self)
                    && trace.last() == *final(self) && spec_cycle_sum(cyc) >= 17556,
    {
        let mut total: u32 = 0;
        let ghost mut gtrace: Seq<CPU> = seq![*old(self)];
        let ghost mut gcyc: Seq<u8> = Seq::empty();
        while total < 17556
            invariant
                self.wf(),
                !old(self).memory.bootrom.enabled ==> !self.memory.bootrom.enabled,
                self.memory.bootrom.code@ == old(self).memory.bootrom.code@,
                total <= 17556,
                gtrace.len() == gcyc.len() + 1,
                gtrace.first() == *old(self),
                gtrace.last() == *self,
                forall|i: int|
                    0 <= i < gcyc.len() ==> #[trigger] spec_machine_step(
                        gtrace[i],
                        gtrace[i + 1],
                        gcyc[i],
                    ),
                spec_cycle_sum(gcyc) >= total,
            decreases 17556 - total,
        {
            let ghost pre = *self;
            let cycles = match self.step() {
                Ok(c) => c,
                Err(e) => {
                    return Err(e);
                },
            };
            proof {
                let old_trace = gtrace;
                let old_cyc = gcyc;
                gtrace = gtrace.push(*self);
                gcyc = gcyc.push(cycles);
                assert(gcyc.drop_last() == old_cyc);
                assert(gcyc.last() == cycles);
                assert forall|i: int|
                    0 <= i < gcyc.len() implies #[trigger] spec_machine_step(
                    gtrace[i],
                    gtrace[i + 1],
                    gcyc[i],
                ) by {
                    if i < old_cyc.len() {
                        assert(gtrace[i] == old_trace[i]);
                        assert(gtrace[i + 1] == old_trace[i + 1]);
                        assert(gcyc[i] == old_cyc[i]);
                        assert(spec_machine_step(old_trace[i], old_trace[i + 1], old_cyc[i]));
                    } else {
                        assert(gtrace[i] == pre);
                        assert(gtrace[i + 1] == *self);
                        assert(gcyc[i] == cycles);
                    }
                }
            }
            let inc = cycles as u32;
            total = if total + inc > 17556 {
                17556
            } else {
                total + inc
            };
        }
        proof {
            assert(spec_step_trace(gtrace, gcyc));
        }
        Ok(())
    }
}

} // verus!
