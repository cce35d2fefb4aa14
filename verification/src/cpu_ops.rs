//! SM83 instruction semantics: operand decoding, the ALU and shifter
//! evaluators, per-group transition relations and the published timing
//! tables.
//!
//! Every relation describes one instruction group applied to the state
//! reached after its opcode byte was fetched; the dispatcher in the CPU
//! module selects the relation by opcode.

use vstd::prelude::*;

use crate::bus::Bus;
use crate::bus::bus_write_rel;
use crate::bus::bus_write16_rel;
use crate::cpu::Cpu;
use crate::cpu::after_fetch;
use crate::cpu::wrap16;
use crate::regs::RegisterFile;
use crate::timer::Timer;

verus! {

/// T-cycles of a primary opcode when no branch is taken; unusable opcode
/// bytes idle for four cycles.
pub open spec fn instr_cycles(op: u8) -> u64 {
    if op < 0x40 {
        if op == 0x01 || op == 0x11 || op == 0x21 || op == 0x31 {
            12
        } else if op == 0x08 {
            20
        } else if op == 0x18 {
            12
        } else if op == 0x20 || op == 0x28 || op == 0x30 || op == 0x38 {
            8
        } else if op == 0x34 || op == 0x35 || op == 0x36 {
            12
        } else if op % 16 == 2 || op % 16 == 3 || op % 16 == 6 || op % 16 == 9 || op % 16 == 10
            || op % 16 == 11 || op % 16 == 14 {
            8
        } else {
            4
        }
    } else if op < 0xC0 {
        if 0x70 <= op <= 0x77 {
            if op == 0x76 {
                4
            } else {
                8
            }
        } else if op % 8 == 6 {
            8
        } else {
            4
        }
    } else {
        if op % 16 == 1 {
            12
        } else if op % 16 == 5 {
            16
        } else if op % 8 == 6 {
            8
        } else if op % 8 == 7 {
            16
        } else if op == 0xC0 || op == 0xD0 || op == 0xC8 || op == 0xD8 {
            8
        } else if op == 0xE0 || op == 0xF0 {
            12
        } else if op == 0xC2 || op == 0xD2 || op == 0xCA || op == 0xDA {
            12
        } else if op == 0xE2 || op == 0xF2 {
            8
        } else if op == 0xC3 {
            16
        } else if op == 0xC4 || op == 0xD4 || op == 0xCC || op == 0xDC {
            12
        } else if op == 0xE8 {
            16
        } else if op == 0xF8 {
            12
        } else if op == 0xC9 || op == 0xD9 {
            16
        } else if op == 0xE9 {
            4
        } else if op == 0xF9 {
            8
        } else if op == 0xCA || op == 0xDA || op == 0xEA || op == 0xFA {
            16
        } else {
            4
        }
    }
}

/// T-cycles of a conditional branch when it is taken.
pub open spec fn branch_cycles(op: u8) -> u64 {
    if op == 0x18 || op == 0x20 || op == 0x28 || op == 0x30 || op == 0x38 {
        12
    } else if op == 0xC0 || op == 0xC8 || op == 0xD0 || op == 0xD8 {
        20
    } else if op == 0xC9 || op == 0xD9 {
        16
    } else if op == 0xC2 || op == 0xCA || op == 0xD2 || op == 0xDA || op == 0xC3 {
        16
    } else if op == 0xE9 {
        4
    } else if op == 0xC4 || op == 0xCC || op == 0xD4 || op == 0xDC || op == 0xCD {
        24
    } else {
        16
    }
}

/// T-cycles of a CB-prefixed opcode, the prefix byte included.
pub open spec fn cb_cycles(op: u8) -> u64 {
    if op % 8 == 6 {
        if 0x40 <= op <= 0x7F {
            12
        } else {
            16
        }
    } else {
        8
    }
}

/// T-cycles of a primary opcode when no branch is taken.
pub fn instr_cycles_of(op: u8) -> (r: u64)
    ensures
        r == instr_cycles(op),
{
    if op < 0x40 {
        if op == 0x01 || op == 0x11 || op == 0x21 || op == 0x31 {
            12
        } else if op == 0x08 {
            20
        } else if op == 0x18 {
            12
        } else if op == 0x20 || op == 0x28 || op == 0x30 || op == 0x38 {
            8
        } else if op == 0x34 || op == 0x35 || op == 0x36 {
            12
        } else if op % 16 == 2 || op % 16 == 3 || op % 16 == 6 || op % 16 == 9 || op % 16 == 10
            || op % 16 == 11 || op % 16 == 14 {
            8
        } else {
            4
        }
    } else if op < 0xC0 {
        if 0x70 <= op && op <= 0x77 {
            if op == 0x76 {
                4
            } else {
                8
            }
        } else if op % 8 == 6 {
            8
        } else {
            4
        }
    } else {
        if op % 16 == 1 {
            12
        } else if op % 16 == 5 {
            16
        } else if op % 8 == 6 {
            8
        } else if op % 8 == 7 {
            16
        } else if op == 0xC0 || op == 0xD0 || op == 0xC8 || op == 0xD8 {
            8
        } else if op == 0xE0 || op == 0xF0 {
            12
        } else if op == 0xC2 || op == 0xD2 || op == 0xCA || op == 0xDA {
            12
        } else if op == 0xE2 || op == 0xF2 {
            8
        } else if op == 0xC3 {
            16
        } else if op == 0xC4 || op == 0xD4 || op == 0xCC || op == 0xDC {
            12
        } else if op == 0xE8 {
            16
        } else if op == 0xF8 {
            12
        } else if op == 0xC9 || op == 0xD9 {
            16
        } else if op == 0xE9 {
            4
        } else if op == 0xF9 {
            8
        } else if op == 0xEA || op == 0xFA {
            16
        } else {
            4
        }
    }
}

/// T-cycles of a CB-prefixed opcode.
pub fn cb_cycles_of(op: u8) -> (r: u64)
    ensures
        r == cb_cycles(op),
{
    if op % 8 == 6 {
        if 0x40 <= op && op <= 0x7F {
            12
        } else {
            16
        }
    } else {
        8
    }
}

/// The 8-bit operand of an ALU or load instruction together with the state
/// after it was resolved: an immediate consumes one byte at PC, index 6
/// reads through HL, anything else names a register.
pub open spec fn operand8(c: Cpu, opcode: u8, imm: bool) -> (Cpu, u8) {
    if imm {
        (after_fetch(c, 1), c.bus.spec_read(c.rf.pc))
    } else if opcode % 8 == 6 {
        (c, c.bus.spec_read(c.rf.spec_hl() as u16))
    } else {
        (c, c.rf.spec_r8((opcode % 8) as int))
    }
}

/// ALU group of an opcode: 0 ADD, 1 ADC, 2 SUB, 3 SBC, 4 AND, 5 XOR,
/// 6 OR, 7 CP; register rows 0x80..0xBF or the immediate column.
pub open spec fn alu_group(op: u8) -> int {
    if op < 0xC0 {
        (op - 0x80) / 8
    } else {
        (op - 0xC6) / 8
    }
}

/// Result and flags of one ALU operation: (A, Z, N, H, C). The flag rules
/// are the normative ones: H watches bit 3, C the full width, with N set
/// for subtractions; AND sets H, the bit operations clear C.
pub open spec fn alu_eval(g: int, a: u8, b: u8, cin: int) -> (u8, bool, bool, bool, bool) {
    if g == 0 || g == 1 {
        let ci = if g == 1 {
            cin
        } else {
            0
        };
        let res = ((a + b + ci) % 256) as u8;
        (res, res == 0, false, a % 16 + b % 16 + ci > 15, a + b + ci > 255)
    } else if g == 2 || g == 3 || g == 7 {
        let ci = if g == 3 {
            cin
        } else {
            0
        };
        let res = ((a - b - ci) % 256) as u8;
        (
            if g == 7 {
                a
            } else {
                res
            },
            res == 0,
            true,
            a % 16 < b % 16 + ci,
            (a as int) < b + ci,
        )
    } else if g == 4 {
        let res = a & b;
        (res, res == 0, false, true, false)
    } else if g == 5 {
        let res = a ^ b;
        (res, res == 0, false, false, false)
    } else {
        let res = a | b;
        (res, res == 0, false, false, false)
    }
}

/// One 8-bit ALU instruction: resolve the operand, evaluate the group,
/// store A (CP only compares) and the four flags.
#[verifier::opaque]
pub open spec fn alu_rel(pre: Cpu, post: Cpu, opcode: u8) -> bool {
    let dec = operand8(pre, opcode, opcode >= 0xC0);
    let c = dec.0;
    let b = dec.1;
    let cin = if c.rf.cf {
        1int
    } else {
        0int
    };
    let out = alu_eval(alu_group(opcode), c.rf.a, b, cin);
    post == (Cpu {
        rf: RegisterFile { a: out.0, zf: out.1, nf: out.2, hf: out.3, cf: out.4, ..c.rf },
        ..c
    })
}

/// Result and carry of one shifter operation: 0 RLC, 1 RRC, 2 RL, 3 RR,
/// 4 SLA, 5 SRA, 6 SWAP, 7 SRL.
pub open spec fn shift_eval(sub: int, v: u8, cin: int) -> (u8, bool) {
    if sub == 0 {
        ((((v % 128) * 2 + v / 128)) as u8, v >= 128)
    } else if sub == 1 {
        (((v / 2 + (v % 2) * 128)) as u8, v % 2 == 1)
    } else if sub == 2 {
        ((((v % 128) * 2 + cin)) as u8, v >= 128)
    } else if sub == 3 {
        (((v / 2 + cin * 128)) as u8, v % 2 == 1)
    } else if sub == 4 {
        ((((v % 128) * 2)) as u8, v >= 128)
    } else if sub == 5 {
        (((v / 2 + (v / 128) * 128)) as u8, v % 2 == 1)
    } else if sub == 6 {
        ((((v % 16) * 16 + v / 16)) as u8, false)
    } else {
        ((v / 2) as u8, v % 2 == 1)
    }
}

/// One rotate on A (RLCA, RLA, RRCA, RRA): Z is always cleared.
#[verifier::opaque]
pub open spec fn rot_a_rel(pre: Cpu, post: Cpu, opcode: u8) -> bool {
    let sub: int = if opcode == 0x07 {
        0
    } else if opcode == 0x17 {
        2
    } else if opcode == 0x0F {
        1
    } else {
        3
    };
    let cin = if pre.rf.cf {
        1int
    } else {
        0int
    };
    let out = shift_eval(sub, pre.rf.a, cin);
    post == (Cpu {
        rf: RegisterFile { a: out.0, zf: false, nf: false, hf: false, cf: out.1, ..pre.rf },
        ..pre
    })
}

/// Writing an 8-bit destination: index 6 stores through HL, anything else
/// is a register.
#[verifier::opaque]
pub open spec fn write_r8_rel(pre: Cpu, post: Cpu, reg: u8, val: u8) -> bool {
    if reg == 6 {
        &&& bus_write_rel(pre.bus, post.bus, pre.rf.spec_hl() as u16, val)
        &&& post == (Cpu { bus: post.bus, ..pre })
    } else {
        post == (Cpu { rf: pre.rf.spec_with_r8(reg as int, val), ..pre })
    }
}

/// One CB-prefixed shifter instruction applied to the operand named by the
/// opcode's low bits.
#[verifier::opaque]
pub open spec fn cb_shift_rel(pre: Cpu, post: Cpu, opcode: u8) -> bool {
    let dec = operand8(pre, opcode, false);
    let v = dec.1;
    let cin = if pre.rf.cf {
        1int
    } else {
        0int
    };
    let out = shift_eval((opcode / 8) as int, v, cin);
    let flagged = Cpu {
        rf: RegisterFile { zf: out.0 == 0, nf: false, hf: false, cf: out.1, ..pre.rf },
        ..pre
    };
    write_r8_rel(flagged, post, opcode % 8, out.0)
}

/// The single-bit mask selecting bit `k` of a byte.
pub open spec fn bit_mask(k: int) -> u8 {
    if k == 0 {
        1
    } else if k == 1 {
        2
    } else if k == 2 {
        4
    } else if k == 3 {
        8
    } else if k == 4 {
        16
    } else if k == 5 {
        32
    } else if k == 6 {
        64
    } else {
        128
    }
}

/// The single-bit mask selecting bit `k` of a byte.
pub fn bit_mask_of(k: u8) -> (r: u8)
    requires
        k < 8,
    ensures
        r == bit_mask(k as int),
{
    match k {
        0 => 1,
        1 => 2,
        2 => 4,
        3 => 8,
        4 => 16,
        5 => 32,
        6 => 64,
        _ => 128,
    }
}

/// BIT n,r: Z holds exactly when the tested bit is clear; C is untouched.
#[verifier::opaque]
pub open spec fn cb_bit_rel(pre: Cpu, post: Cpu, opcode: u8) -> bool {
    let dec = operand8(pre, opcode, false);
    let v = dec.1;
    let m = bit_mask(((opcode / 8) % 8) as int);
    post == (Cpu {
        rf: RegisterFile { zf: (v / m) % 2 == 0, nf: false, hf: true, ..pre.rf },
        ..pre
    })
}

/// RES and SET: force one bit of the operand clear or set, no flags.
#[verifier::opaque]
pub open spec fn cb_res_set_rel(pre: Cpu, post: Cpu, opcode: u8) -> bool {
    let dec = operand8(pre, opcode, false);
    let v = dec.1;
    let m = bit_mask(((opcode / 8) % 8) as int);
    let res = if opcode < 0xC0 {
        crate::util::with_bit(v, m, false)
    } else {
        crate::util::with_bit(v, m, true)
    };
    write_r8_rel(pre, post, opcode % 8, res)
}

/// INC r8 and DEC r8: flags per the increment and decrement rules, the
/// carry flag untouched; index 6 works through HL.
#[verifier::opaque]
pub open spec fn incdec8_rel(pre: Cpu, post: Cpu, opcode: u8) -> bool {
    let reg = (opcode / 8) % 8;
    let dec = if reg == 6 {
        pre.bus.spec_read(pre.rf.spec_hl() as u16)
    } else {
        pre.rf.spec_r8(reg as int)
    };
    let inc = opcode % 8 == 4;
    let res = if inc {
        (((dec + 1) as int) % 256) as u8
    } else {
        (((dec - 1) as int) % 256) as u8
    };
    let flagged = Cpu {
        rf: RegisterFile {
            zf: res == 0,
            nf: !inc,
            hf: if inc {
                dec % 16 == 15
            } else {
                dec % 16 == 0
            },
            ..pre.rf
        },
        ..pre
    };
    write_r8_rel(flagged, post, reg, res)
}

/// INC rr and DEC rr: 16-bit, no flags.
#[verifier::opaque]
pub open spec fn incdec16_rel(pre: Cpu, post: Cpu, opcode: u8) -> bool {
    let inc = opcode % 16 == 3;
    let delta: int = if inc {
        1
    } else {
        -1
    };
    let rf = pre.rf;
    let nrf = if opcode < 0x10 {
        let v = wrap16(rf.spec_bc() + delta);
        RegisterFile { b: (v / 256) as u8, c: (v % 256) as u8, ..rf }
    } else if opcode < 0x20 {
        let v = wrap16(rf.spec_de() + delta);
        RegisterFile { d: (v / 256) as u8, e: (v % 256) as u8, ..rf }
    } else if opcode < 0x30 {
        let v = wrap16(rf.spec_hl() + delta);
        RegisterFile { h: (v / 256) as u8, l: (v % 256) as u8, ..rf }
    } else {
        RegisterFile { sp: wrap16(rf.sp + delta), ..rf }
    };
    post == (Cpu { rf: nrf, ..pre })
}

/// ADD HL,rr: H watches bit 11, C bit 15, N clears, Z is untouched.
#[verifier::opaque]
pub open spec fn add16_rel(pre: Cpu, post: Cpu, opcode: u8) -> bool {
    let rf = pre.rf;
    let b: int = if opcode == 0x09 {
        rf.spec_bc()
    } else if opcode == 0x19 {
        rf.spec_de()
    } else if opcode == 0x29 {
        rf.spec_hl()
    } else {
        rf.sp as int
    };
    let a = rf.spec_hl();
    let res = wrap16(a + b);
    post == (Cpu {
        rf: RegisterFile {
            h: (res / 256) as u8,
            l: (res % 256) as u8,
            nf: false,
            hf: a % 0x1000 + b % 0x1000 > 0xFFF,
            cf: a + b > 0xFFFF,
            ..rf
        },
        ..pre
    })
}

/// DAA: adjust A back to packed BCD after an addition or subtraction,
/// using N, H, C and the current value of A.
#[verifier::opaque]
pub open spec fn daa_rel(pre: Cpu, post: Cpu) -> bool {
    let rf = pre.rf;
    let a = rf.a;
    let off: int = if rf.nf {
        (if rf.hf {
            6int
        } else {
            0int
        }) + (if rf.cf {
            0x60int
        } else {
            0int
        })
    } else {
        (if rf.hf || a % 16 > 9 {
            6int
        } else {
            0int
        }) + (if rf.cf || a > 0x99 {
            0x60int
        } else {
            0int
        })
    };
    let res = if rf.nf {
        (((a - off) as int) % 256) as u8
    } else {
        (((a + off) as int) % 256) as u8
    };
    post == (Cpu {
        rf: RegisterFile { a: res, zf: res == 0, hf: false, cf: off >= 0x60, ..rf },
        ..pre
    })
}

/// ADD SP,e8 and LD HL,SP+e8 share their result and flags: the signed
/// immediate is added to SP, H and C watch bits 3 and 7 of SP's low byte,
/// Z and N clear.
pub open spec fn sp_offset_eval(sp: u16, b: u8) -> (u16, bool, bool) {
    let s: int = if b < 128 {
        b as int
    } else {
        b - 256
    };
    (wrap16(sp + s), sp % 16 + b % 16 > 15, sp % 256 + b > 255)
}

} // verus!
