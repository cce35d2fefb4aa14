//! The SM83 CPU: interrupt dispatch, instruction fetch, decode and
//! execute, on top of the memory bus it owns.
//!
//! One tick services a pending interrupt if the master enable allows,
//! executes one instruction (or idles four T-cycles while halted), applies
//! the one-instruction delay of EI, and advances the bus by the cycles
//! consumed.

use vstd::prelude::*;

use crate::bus::Bus;
use crate::bus::bus_tick_rel;
use crate::bus::bus_write_rel;
use crate::bus::bus_write16_rel;
use crate::cpu_ops::add16_rel;
use crate::cpu_ops::alu_rel;
use crate::cpu_ops::bit_mask_of;
use crate::cpu_ops::branch_cycles;
use crate::cpu_ops::cb_bit_rel;
use crate::cpu_ops::cb_cycles;
use crate::cpu_ops::cb_cycles_of;
use crate::cpu_ops::cb_res_set_rel;
use crate::cpu_ops::cb_shift_rel;
use crate::cpu_ops::daa_rel;
use crate::cpu_ops::incdec16_rel;
use crate::cpu_ops::incdec8_rel;
use crate::cpu_ops::instr_cycles;
use crate::cpu_ops::instr_cycles_of;
use crate::cpu_ops::operand8;
use crate::cpu_ops::rot_a_rel;
use crate::cpu_ops::shift_eval;
use crate::cpu_ops::sp_offset_eval;
use crate::cpu_ops::write_r8_rel;
use crate::mbc::Cartridge;
use crate::mbc::Mbc;
use crate::regs::RegisterFile;
use crate::timer::Timer;
use crate::util::bit;

verus! {

/// A 16-bit value reduced into the address space, wrapping.
pub open spec fn wrap16(v: int) -> u16 {
    (v % 0x10000) as u16
}

/// The sign-extended value of an 8-bit immediate.
pub open spec fn signed8(b: u8) -> int {
    if b < 128 {
        b as int
    } else {
        b - 256
    }
}

/// The SM83 CPU core.
pub struct Cpu {
    pub rf: RegisterFile,
    pub bus: Bus,
    /// Interrupt master enable.
    pub ime: bool,
    /// One-instruction-delayed enable armed by EI.
    pub pending_ime: bool,
    /// Set by HALT; cleared when an interrupt becomes pending.
    pub halted: bool,
}

/// The CPU with its program counter advanced by `n`, wrapping.
pub open spec fn after_fetch(c: Cpu, n: int) -> Cpu {
    Cpu { rf: RegisterFile { pc: wrap16(c.rf.pc + n), ..c.rf }, ..c }
}

/// The little-endian 16-bit immediate at PC.
pub open spec fn spec_imm16(c: Cpu) -> int {
    c.bus.spec_read(c.rf.pc) + 256 * c.bus.spec_read(wrap16(c.rf.pc + 1))
}

/// A register file with the BC pair replaced.
pub open spec fn rf_with_bc(rf: RegisterFile, v: int) -> RegisterFile {
    RegisterFile { b: ((v % 0x10000) / 256) as u8, c: (v % 256) as u8, ..rf }
}

/// A register file with the DE pair replaced.
pub open spec fn rf_with_de(rf: RegisterFile, v: int) -> RegisterFile {
    RegisterFile { d: ((v % 0x10000) / 256) as u8, e: (v % 256) as u8, ..rf }
}

/// A register file with the HL pair replaced.
pub open spec fn rf_with_hl(rf: RegisterFile, v: int) -> RegisterFile {
    RegisterFile { h: ((v % 0x10000) / 256) as u8, l: (v % 256) as u8, ..rf }
}

/// A register file with the AF pair replaced; the low nibble of F is
/// discarded.
pub open spec fn rf_with_af(rf: RegisterFile, v: int) -> RegisterFile {
    let w = v % 0x10000;
    RegisterFile {
        a: (w / 256) as u8,
        zf: (w / 128) % 2 == 1,
        nf: (w / 64) % 2 == 1,
        hf: (w / 32) % 2 == 1,
        cf: (w / 16) % 2 == 1,
        ..rf
    }
}

/// LD rr,nn: a 16-bit immediate lands in BC, DE, HL or SP.
#[verifier::opaque]
pub open spec fn ld_r16_imm_rel(mid: Cpu, post: Cpu, op: u8) -> bool {
    let v = spec_imm16(mid);
    let c = after_fetch(mid, 2);
    let nrf = if op == 0x01 {
        rf_with_bc(c.rf, v)
    } else if op == 0x11 {
        rf_with_de(c.rf, v)
    } else if op == 0x21 {
        rf_with_hl(c.rf, v)
    } else {
        RegisterFile { sp: wrap16(v), ..c.rf }
    };
    post == (Cpu { rf: nrf, ..c })
}

/// LD r8,n: an 8-bit immediate lands in a register or through HL.
#[verifier::opaque]
pub open spec fn ld_r8_imm_rel(mid: Cpu, post: Cpu, op: u8) -> bool {
    let b = mid.bus.spec_read(mid.rf.pc);
    let c = after_fetch(mid, 1);
    write_r8_rel(c, post, (op / 8) % 8, b)
}

/// The accumulator loads via BC, DE and HL with post-increment or
/// post-decrement, in both directions.
#[verifier::opaque]
pub open spec fn ld_ind_a_rel(mid: Cpu, post: Cpu, op: u8) -> bool {
    let rf = mid.rf;
    if op == 0x02 {
        &&& bus_write_rel(mid.bus, post.bus, rf.spec_bc() as u16, rf.a)
        &&& post == (Cpu { bus: post.bus, ..mid })
    } else if op == 0x12 {
        &&& bus_write_rel(mid.bus, post.bus, rf.spec_de() as u16, rf.a)
        &&& post == (Cpu { bus: post.bus, ..mid })
    } else if op == 0x22 {
        &&& bus_write_rel(mid.bus, post.bus, rf.spec_hl() as u16, rf.a)
        &&& post == (Cpu { bus: post.bus, rf: rf_with_hl(rf, rf.spec_hl() + 1), ..mid })
    } else if op == 0x32 {
        &&& bus_write_rel(mid.bus, post.bus, rf.spec_hl() as u16, rf.a)
        &&& post == (Cpu { bus: post.bus, rf: rf_with_hl(rf, rf.spec_hl() - 1), ..mid })
    } else if op == 0x0A {
        post == (Cpu { rf: RegisterFile { a: mid.bus.spec_read(rf.spec_bc() as u16), ..rf }, ..mid })
    } else if op == 0x1A {
        post == (Cpu { rf: RegisterFile { a: mid.bus.spec_read(rf.spec_de() as u16), ..rf }, ..mid })
    } else if op == 0x2A {
        post == (Cpu {
            rf: rf_with_hl(
                RegisterFile { a: mid.bus.spec_read(rf.spec_hl() as u16), ..rf },
                rf.spec_hl() + 1,
            ),
            ..mid
        })
    } else {
        post == (Cpu {
            rf: rf_with_hl(
                RegisterFile { a: mid.bus.spec_read(rf.spec_hl() as u16), ..rf },
                rf.spec_hl() - 1,
            ),
            ..mid
        })
    }
}

/// LD r8,r8: register to register, through HL for index 6 on either side.
#[verifier::opaque]
pub open spec fn ld_r8_rel(mid: Cpu, post: Cpu, op: u8) -> bool {
    let v = operand8(mid, op, false).1;
    write_r8_rel(mid, post, (op / 8) % 8, v)
}

/// LD (nn),SP: the stack pointer stored little-endian at an absolute
/// address.
#[verifier::opaque]
pub open spec fn ld_ind_imm_sp_rel(mid: Cpu, post: Cpu) -> bool {
    let addr = wrap16(spec_imm16(mid));
    let c = after_fetch(mid, 2);
    &&& bus_write16_rel(c.bus, post.bus, addr, c.rf.sp)
    &&& post == (Cpu { bus: post.bus, ..c })
}

/// POP rr: two bytes off the stack into a pair; AF masks the flag nibble.
#[verifier::opaque]
pub open spec fn pop_rel(mid: Cpu, post: Cpu, op: u8) -> bool {
    let sp = mid.rf.sp;
    let v = mid.bus.spec_read(sp) + 256 * mid.bus.spec_read(wrap16(sp + 1));
    let stepped = RegisterFile { sp: wrap16(sp + 2), ..mid.rf };
    let nrf = if op == 0xC1 {
        rf_with_bc(stepped, v)
    } else if op == 0xD1 {
        rf_with_de(stepped, v)
    } else if op == 0xE1 {
        rf_with_hl(stepped, v)
    } else {
        rf_with_af(stepped, v)
    };
    post == (Cpu { rf: nrf, ..mid })
}

/// PUSH rr: a pair onto the stack, high byte at the higher address.
#[verifier::opaque]
pub open spec fn push_rel(mid: Cpu, post: Cpu, op: u8) -> bool {
    let v: int = if op == 0xC5 {
        mid.rf.spec_bc()
    } else if op == 0xD5 {
        mid.rf.spec_de()
    } else if op == 0xE5 {
        mid.rf.spec_hl()
    } else {
        mid.rf.spec_af()
    };
    let nsp = wrap16(mid.rf.sp - 2);
    &&& bus_write16_rel(mid.bus, post.bus, nsp, (v % 0x10000) as u16)
    &&& post == (Cpu { rf: RegisterFile { sp: nsp, ..mid.rf }, bus: post.bus, ..mid })
}

/// LD HL,SP+e8: signed offset into HL with the SP-offset flag rules.
#[verifier::opaque]
pub open spec fn ld_hl_sp_rel(mid: Cpu, post: Cpu) -> bool {
    let b = mid.bus.spec_read(mid.rf.pc);
    let c = after_fetch(mid, 1);
    let out = sp_offset_eval(c.rf.sp, b);
    post == (Cpu {
        rf: rf_with_hl(
            RegisterFile { zf: false, nf: false, hf: out.1, cf: out.2, ..c.rf },
            out.0 as int,
        ),
        ..c
    })
}

/// ADD SP,e8: signed offset into SP with the SP-offset flag rules.
#[verifier::opaque]
pub open spec fn add_sp_rel(mid: Cpu, post: Cpu) -> bool {
    let b = mid.bus.spec_read(mid.rf.pc);
    let c = after_fetch(mid, 1);
    let out = sp_offset_eval(c.rf.sp, b);
    post == (Cpu {
        rf: RegisterFile { sp: out.0, zf: false, nf: false, hf: out.1, cf: out.2, ..c.rf },
        ..c
    })
}

/// The high-RAM forms: LD (0xFF00+n),A and LD A,(0xFF00+n), and their
/// mirrors through register C.
#[verifier::opaque]
pub open spec fn ld_a_ind_offset_rel(mid: Cpu, post: Cpu, op: u8) -> bool {
    if op == 0xE0 || op == 0xF0 {
        let n = mid.bus.spec_read(mid.rf.pc);
        let c = after_fetch(mid, 1);
        let addr = (0xFF00 + n) as u16;
        if op == 0xE0 {
            &&& bus_write_rel(c.bus, post.bus, addr, c.rf.a)
            &&& post == (Cpu { bus: post.bus, ..c })
        } else {
            post == (Cpu { rf: RegisterFile { a: c.bus.spec_read(addr), ..c.rf }, ..c })
        }
    } else {
        let addr = (0xFF00 + mid.rf.c) as u16;
        if op == 0xE2 {
            &&& bus_write_rel(mid.bus, post.bus, addr, mid.rf.a)
            &&& post == (Cpu { bus: post.bus, ..mid })
        } else {
            post == (Cpu { rf: RegisterFile { a: mid.bus.spec_read(addr), ..mid.rf }, ..mid })
        }
    }
}

/// LD (nn),A and LD A,(nn).
#[verifier::opaque]
pub open spec fn ld_a_ind_rel(mid: Cpu, post: Cpu, op: u8) -> bool {
    let addr = wrap16(spec_imm16(mid));
    let c = after_fetch(mid, 2);
    if op == 0xEA {
        &&& bus_write_rel(c.bus, post.bus, addr, c.rf.a)
        &&& post == (Cpu { bus: post.bus, ..c })
    } else {
        post == (Cpu { rf: RegisterFile { a: c.bus.spec_read(addr), ..c.rf }, ..c })
    }
}

/// The condition a conditional branch opcode tests.
pub open spec fn branch_cond(rf: RegisterFile, op: u8) -> bool {
    if op == 0x20 || op == 0xC0 || op == 0xC2 || op == 0xC4 {
        !rf.zf
    } else if op == 0x28 || op == 0xC8 || op == 0xCA || op == 0xCC {
        rf.zf
    } else if op == 0x30 || op == 0xD0 || op == 0xD2 || op == 0xD4 {
        !rf.cf
    } else if op == 0x38 || op == 0xD8 || op == 0xDA || op == 0xDC {
        rf.cf
    } else {
        true
    }
}

/// JR cc,e: a signed relative jump; untaken branches take the no-branch
/// cycle count.
#[verifier::opaque]
pub open spec fn jr_rel(mid: Cpu, post: Cpu, op: u8, r: u64) -> bool {
    let b = mid.bus.spec_read(mid.rf.pc);
    let c = after_fetch(mid, 1);
    if branch_cond(c.rf, op) {
        &&& post == (Cpu { rf: RegisterFile { pc: wrap16(c.rf.pc + signed8(b)), ..c.rf }, ..c })
        &&& r == branch_cycles(op)
    } else {
        &&& post == c
        &&& r == instr_cycles(op)
    }
}

/// RET, RET cc and RETI: pop the return address when the condition holds;
/// RETI also sets the master enable.
#[verifier::opaque]
pub open spec fn ret_rel(mid: Cpu, post: Cpu, op: u8, r: u64) -> bool {
    let base = if op == 0xD9 {
        Cpu { ime: true, ..mid }
    } else {
        mid
    };
    if branch_cond(mid.rf, op) {
        let sp = mid.rf.sp;
        let v = mid.bus.spec_read(sp) + 256 * mid.bus.spec_read(wrap16(sp + 1));
        &&& post == (Cpu {
            rf: RegisterFile { pc: (v % 0x10000) as u16, sp: wrap16(sp + 2), ..base.rf },
            ..base
        })
        &&& r == branch_cycles(op)
    } else {
        &&& post == base
        &&& r == instr_cycles(op)
    }
}

/// JP cc,nn and JP HL.
#[verifier::opaque]
pub open spec fn jp_rel(mid: Cpu, post: Cpu, op: u8, r: u64) -> bool {
    let c = if op == 0xE9 {
        mid
    } else {
        after_fetch(mid, 2)
    };
    let addr: int = if op == 0xE9 {
        mid.rf.spec_hl()
    } else {
        spec_imm16(mid)
    };
    if branch_cond(c.rf, op) {
        &&& post == (Cpu { rf: RegisterFile { pc: wrap16(addr), ..c.rf }, ..c })
        &&& r == branch_cycles(op)
    } else {
        &&& post == c
        &&& r == instr_cycles(op)
    }
}

/// CALL cc,nn: push the return address and jump when the condition holds.
#[verifier::opaque]
pub open spec fn call_rel(mid: Cpu, post: Cpu, op: u8, r: u64) -> bool {
    let addr = wrap16(spec_imm16(mid));
    let c = after_fetch(mid, 2);
    if branch_cond(c.rf, op) {
        let nsp = wrap16(c.rf.sp - 2);
        &&& bus_write16_rel(c.bus, post.bus, nsp, c.rf.pc)
        &&& post == (Cpu { rf: RegisterFile { pc: addr, sp: nsp, ..c.rf }, bus: post.bus, ..c })
        &&& r == branch_cycles(op)
    } else {
        &&& post == c
        &&& r == instr_cycles(op)
    }
}

/// RST: push the return address and jump to the fixed vector the opcode
/// encodes.
#[verifier::opaque]
pub open spec fn rst_rel(mid: Cpu, post: Cpu, op: u8) -> bool {
    let nsp = wrap16(mid.rf.sp - 2);
    &&& bus_write16_rel(mid.bus, post.bus, nsp, mid.rf.pc)
    &&& post == (Cpu {
        rf: RegisterFile { pc: (((op / 8) % 8) * 8) as u16, sp: nsp, ..mid.rf },
        bus: post.bus,
        ..mid
    })
}

/// One primary (not CB-prefixed) instruction, dispatched by opcode, from
/// the state after the opcode byte was fetched.
#[verifier::opaque]
pub open spec fn primary_rel(mid: Cpu, post: Cpu, op: u8, r: u64) -> bool {
    if op == 0x00 {
        post == mid && r == 4
    } else if op == 0xF3 {
        post == (Cpu { ime: false, pending_ime: false, ..mid }) && r == 4
    } else if op == 0xFB {
        post == (if mid.ime {
            mid
        } else {
            Cpu { pending_ime: true, ..mid }
        }) && r == 4
    } else if op == 0x10 {
        post == (Cpu {
            bus: Bus { timer: (Timer { div: 0, div_state: 0, ..mid.bus.timer }), ..mid.bus },
            ..mid
        }) && r == 4
    } else if op == 0x76 {
        post == (Cpu { halted: true, ..mid }) && r == 4
    } else if op == 0x01 || op == 0x11 || op == 0x21 || op == 0x31 {
        ld_r16_imm_rel(mid, post, op) && r == 12
    } else if op == 0x06 || op == 0x16 || op == 0x26 || op == 0x36 || op == 0x0E || op == 0x1E
        || op == 0x2E || op == 0x3E {
        ld_r8_imm_rel(mid, post, op) && r == instr_cycles(op)
    } else if op == 0x02 || op == 0x12 || op == 0x22 || op == 0x32 || op == 0x0A || op == 0x1A
        || op == 0x2A || op == 0x3A {
        ld_ind_a_rel(mid, post, op) && r == 8
    } else if 0x40 <= op < 0x80 {
        ld_r8_rel(mid, post, op) && r == instr_cycles(op)
    } else if op == 0x08 {
        ld_ind_imm_sp_rel(mid, post) && r == 20
    } else if op == 0xF9 {
        post == (Cpu {
            rf: RegisterFile { sp: (mid.rf.spec_hl()) as u16, ..mid.rf },
            ..mid
        }) && r == 8
    } else if op == 0xC1 || op == 0xD1 || op == 0xE1 || op == 0xF1 {
        pop_rel(mid, post, op) && r == 12
    } else if op == 0xC5 || op == 0xD5 || op == 0xE5 || op == 0xF5 {
        push_rel(mid, post, op) && r == 16
    } else if op == 0xF8 {
        ld_hl_sp_rel(mid, post) && r == 12
    } else if op == 0xE0 || op == 0xF0 || op == 0xE2 || op == 0xF2 {
        ld_a_ind_offset_rel(mid, post, op) && r == instr_cycles(op)
    } else if op == 0xEA || op == 0xFA {
        ld_a_ind_rel(mid, post, op) && r == 16
    } else if op == 0x07 || op == 0x17 || op == 0x0F || op == 0x1F {
        rot_a_rel(mid, post, op) && r == 4
    } else if op == 0x03 || op == 0x13 || op == 0x23 || op == 0x33 || op == 0x0B || op == 0x1B
        || op == 0x2B || op == 0x3B {
        incdec16_rel(mid, post, op) && r == 8
    } else if op < 0x40 && (op % 8 == 4 || op % 8 == 5) {
        incdec8_rel(mid, post, op) && r == instr_cycles(op)
    } else if op == 0x09 || op == 0x19 || op == 0x29 || op == 0x39 {
        add16_rel(mid, post, op) && r == 8
    } else if (0x80 <= op < 0xC0) || (op >= 0xC0 && op % 8 == 6) {
        alu_rel(mid, post, op) && r == instr_cycles(op)
    } else if op == 0x27 {
        daa_rel(mid, post) && r == 4
    } else if op == 0x37 {
        post == (Cpu {
            rf: RegisterFile { nf: false, hf: false, cf: true, ..mid.rf },
            ..mid
        }) && r == 4
    } else if op == 0x2F {
        post == (Cpu {
            rf: RegisterFile { a: !mid.rf.a, nf: true, hf: true, ..mid.rf },
            ..mid
        }) && r == 4
    } else if op == 0x3F {
        post == (Cpu {
            rf: RegisterFile { nf: false, hf: false, cf: !mid.rf.cf, ..mid.rf },
            ..mid
        }) && r == 4
    } else if op == 0xE8 {
        add_sp_rel(mid, post) && r == 16
    } else if op == 0x18 || op == 0x28 || op == 0x38 || op == 0x20 || op == 0x30 {
        jr_rel(mid, post, op, r)
    } else if op == 0xC0 || op == 0xD0 || op == 0xC8 || op == 0xD8 || op == 0xC9 || op == 0xD9 {
        ret_rel(mid, post, op, r)
    } else if op == 0xC2 || op == 0xD2 || op == 0xC3 || op == 0xE9 || op == 0xCA || op == 0xDA {
        jp_rel(mid, post, op, r)
    } else if op == 0xC4 || op == 0xD4 || op == 0xCC || op == 0xDC || op == 0xCD {
        call_rel(mid, post, op, r)
    } else if op % 8 == 7 && op >= 0xC0 {
        rst_rel(mid, post, op) && r == 16
    } else {
        // unusable opcode bytes idle like NOP
        post == mid && r == 4
    }
}

/// One CB-prefixed instruction from the state after the prefix byte.
#[verifier::opaque]
pub open spec fn cb_rel(c: Cpu, post: Cpu, r: u64) -> bool {
    let op = c.bus.spec_read(c.rf.pc);
    let m = after_fetch(c, 1);
    &&& r == cb_cycles(op)
    &&& if op < 0x40 {
        cb_shift_rel(m, post, op)
    } else if op < 0x80 {
        cb_bit_rel(m, post, op)
    } else {
        cb_res_set_rel(m, post, op)
    }
}

/// One instruction boundary: halted CPUs idle four T-cycles, everything
/// else fetches at PC and dispatches.
#[verifier::opaque]
pub open spec fn instr_rel(pre: Cpu, post: Cpu, r: u64) -> bool {
    if pre.halted {
        post == pre && r == 4
    } else {
        let op = pre.bus.spec_read(pre.rf.pc);
        let mid = after_fetch(pre, 1);
        if op == 0xCB {
            cb_rel(mid, post, r)
        } else {
            primary_rel(mid, post, op, r)
        }
    }
}

/// The lowest pending interrupt: an IF bit with its IE bit set, priority
/// order VBlank, LCD, timer, serial, joypad.
pub open spec fn pending_int(b: Bus) -> Option<int> {
    let f = b.spec_read(0xFF0F);
    let e = b.spec_read(0xFFFF);
    if bit(f, 1) && bit(e, 1) {
        Some(0int)
    } else if bit(f, 2) && bit(e, 2) {
        Some(1int)
    } else if bit(f, 4) && bit(e, 4) {
        Some(2int)
    } else if bit(f, 8) && bit(e, 8) {
        Some(3int)
    } else if bit(f, 16) && bit(e, 16) {
        Some(4int)
    } else {
        None
    }
}

/// The handler address of interrupt `n`.
pub open spec fn int_vector(n: int) -> u16 {
    (0x40 + 8 * n) as u16
}

/// Interrupt dispatch: with a pending interrupt and the master enable set,
/// the IF bit clears, PC is pushed, control moves to the vector and twenty
/// T-cycles are charged; a pending interrupt always ends the halt state.
#[verifier::opaque]
pub open spec fn int_rel(pre: Cpu, post: Cpu, r: u64) -> bool {
    match pending_int(pre.bus) {
        Option::None => post == pre && r == 0,
        Option::Some(n) => {
            if pre.ime {
                let f = pre.bus.spec_read(0xFF0F);
                let nsp = wrap16(pre.rf.sp - 2);
                exists|m1: Bus|
                    {
                        &&& #[trigger] bus_write_rel(
                            pre.bus,
                            m1,
                            0xFF0F,
                            (f - crate::cpu_ops::bit_mask(n)) as u8,
                        )
                        &&& bus_write16_rel(m1, post.bus, nsp, pre.rf.pc)
                        &&& post == (Cpu {
                            rf: RegisterFile { sp: nsp, pc: int_vector(n), ..pre.rf },
                            ime: false,
                            halted: false,
                            bus: post.bus,
                            ..pre
                        })
                        &&& r == 20
                    }
            } else {
                post == (Cpu { halted: false, ..pre }) && r == 0
            }
        },
    }
}

/// One CPU tick: interrupt dispatch, one instruction (or a halted idle),
/// the delayed EI promotion, then the bus advances by the cycles consumed.
#[verifier::opaque]
pub open spec fn cpu_tick_rel(pre: Cpu, post: Cpu, r: u64) -> bool {
    exists|c1: Cpu, c2: Cpu, i: u64, e: u64|
        {
            &&& #[trigger] int_rel(pre, c1, i)
            &&& #[trigger] instr_rel(c1, c2, e)
            &&& r == i + e
            &&& {
                let c3 = if pre.pending_ime && c2.pending_ime {
                    Cpu { ime: true, pending_ime: false, ..c2 }
                } else {
                    c2
                };
                &&& bus_tick_rel(c3.bus, post.bus, r)
                &&& post == (Cpu { bus: post.bus, ..c3 })
            }
        }
}

impl Cpu {
    pub open spec fn wf(self) -> bool {
        self.bus.wf()
    }

    /// A CPU around a cartridge: registers and control state zeroed.
    pub fn new(cart: Cartridge) -> (r: Cpu)
        requires
            cart.inv(),
        ensures
            r.wf(),
            r.rf == (RegisterFile {
                a: 0, b: 0, c: 0, d: 0, e: 0, h: 0, l: 0,
                zf: false, nf: false, hf: false, cf: false,
                sp: 0, pc: 0,
            }),
            !r.ime && !r.pending_ime && !r.halted,
            r.bus.cart == cart,
            forall|i: int| 0 <= i < 0x10000 ==> r.bus.ram@[i] == 0,
    {
        Cpu {
            rf: RegisterFile::new(),
            bus: Bus::new(cart),
            ime: false,
            pending_ime: false,
            halted: false,
        }
    }

    /// Set the post-boot register state the boot ROM would leave behind.
    pub fn simulate_boot(&mut self)
        requires
            old(self).wf(),
        ensures
            final(self).wf(),
            final(self).rf == (RegisterFile {
                a: 0x01, b: 0x00, c: 0x13, d: 0x00, e: 0xD8, h: 0x01, l: 0x4D,
                zf: true, nf: false, hf: true, cf: true,
                sp: 0xFFFE, pc: 0x0100,
            }),
            final(self).rf.spec_af() == 0x01B0,
            final(self).bus == (Bus {
                timer: (Timer {
                    div: 0xAB,
                    tima: 0x00,
                    tma: 0x00,
                    tac: 0xF8,
                    ..old(self).bus.timer
                }),
                ..old(self).bus
            }),
            final(self).ime == old(self).ime,
            final(self).pending_ime == old(self).pending_ime,
            final(self).halted == old(self).halted,
    {
        self.rf.a = 0x01;
        // F = 0xB0 after boot: Z, H and C set, N clear
        self.rf.write_z(true);
        self.rf.write_n(false);
        self.rf.write_h(true);
        self.rf.write_c(true);
        self.rf.b = 0x00;
        self.rf.c = 0x13;
        self.rf.d = 0x00;
        self.rf.e = 0xD8;
        self.rf.h = 0x01;
        self.rf.l = 0x4D;
        self.rf.pc = 0x0100;
        self.rf.sp = 0xFFFE;

        self.bus.timer.div = 0xAB;
        self.bus.timer.tima = 0x00;
        self.bus.timer.tma = 0x00;
        self.bus.timer.tac = 0xF8;
    }

    /// Fetch one byte at PC and step PC past it.
    pub(crate) fn fetch_u8(&mut self) -> (r: u8)
        requires
            old(self).wf(),
        ensures
            final(self).wf(),
            r == old(self).bus.spec_read(old(self).rf.pc),
            *final(self) == after_fetch(*old(self), 1),
    {
        let res = self.bus.read_u8(self.rf.pc);
        self.rf.pc = self.rf.pc.wrapping_add(1);
        res
    }

    /// Fetch a little-endian 16-bit immediate and step PC past it.
    pub(crate) fn fetch_u16(&mut self) -> (r: u16)
        requires
            old(self).wf(),
        ensures
            final(self).wf(),
            r == spec_imm16(*old(self)),
            *final(self) == after_fetch(*old(self), 2),
    {
        let res = self.bus.read_u16(self.rf.pc);
        self.rf.pc = self.rf.pc.wrapping_add(2);
        res
    }

    /// Read the 8-bit operand named by a register index; 6 reads through
    /// HL.
    pub(crate) fn read_r8(&self, reg: u8) -> (r: u8)
        requires
            self.wf(),
            reg <= 7,
        ensures
            r == (if reg == 6 {
                self.bus.spec_read(self.rf.spec_hl() as u16)
            } else {
                self.rf.spec_r8(reg as int)
            }),
    {
        if reg == 6 {
            self.bus.read_u8(self.rf.read_hl())
        } else {
            self.rf.get_r8(reg)
        }
    }

    /// Write the 8-bit destination named by a register index; 6 stores
    /// through HL.
    pub(crate) fn write_r8(&mut self, reg: u8, val: u8)
        requires
            old(self).wf(),
            reg <= 7,
        ensures
            final(self).wf(),
            write_r8_rel(*old(self), *final(self), reg, val),
    {
        proof { reveal(write_r8_rel); }
        if reg == 6 {
            let addr = self.rf.read_hl();
            self.bus.write_u8(addr, val);
        } else {
            self.rf.set_r8(reg, val);
        }
    }

    /// Push a 16-bit value: SP steps down by two, then the value is stored
    /// there.
    pub(crate) fn push_u16(&mut self, val: u16)
        requires
            old(self).wf(),
        ensures
            final(self).wf(),
            bus_write16_rel(old(self).bus, final(self).bus, wrap16(old(self).rf.sp - 2), val),
            *final(self) == (Cpu {
                rf: RegisterFile { sp: wrap16(old(self).rf.sp - 2), ..old(self).rf },
                bus: final(self).bus,
                ..*old(self)
            }),
    {
        self.rf.sp = self.rf.sp.wrapping_sub(2);
        self.bus.write_u16(self.rf.sp, val);
    }

    /// Pop a 16-bit value: read at SP, then SP steps up by two.
    pub(crate) fn pop_u16(&mut self) -> (r: u16)
        requires
            old(self).wf(),
        ensures
            final(self).wf(),
            r == old(self).bus.spec_read(old(self).rf.sp) + 256 * old(self).bus.spec_read(
                wrap16(old(self).rf.sp + 1),
            ),
            *final(self) == (Cpu {
                rf: RegisterFile { sp: wrap16(old(self).rf.sp + 2), ..old(self).rf },
                ..*old(self)
            }),
    {
        let val = self.bus.read_u16(self.rf.sp);
        self.rf.sp = self.rf.sp.wrapping_add(2);
        val
    }

    /// Service the lowest pending interrupt when the master enable allows;
    /// a pending interrupt always leaves the halt state.
    pub(crate) fn handle_interrupts(&mut self) -> (r: u64)
        requires
            old(self).wf(),
        ensures
            final(self).wf(),
            int_rel(*old(self), *final(self), r),
            r == 0 || r == 20,
    {
        proof { reveal(int_rel); }
        let f = self.bus.read_u8(0xFF0F);
        let e = self.bus.read_u8(0xFFFF);
        let n: u8 = if (f / 1) % 2 == 1 && (e / 1) % 2 == 1 {
            0
        } else if (f / 2) % 2 == 1 && (e / 2) % 2 == 1 {
            1
        } else if (f / 4) % 2 == 1 && (e / 4) % 2 == 1 {
            2
        } else if (f / 8) % 2 == 1 && (e / 8) % 2 == 1 {
            3
        } else if (f / 16) % 2 == 1 && (e / 16) % 2 == 1 {
            4
        } else {
            5
        };
        if n == 5 {
            return 0;
        }
        if self.ime {
            self.ime = false;
            let mask = bit_mask_of(n);
            self.bus.write_u8(0xFF0F, f - mask);
            let ghost m1 = self.bus;
            let pc = self.rf.pc;
            self.push_u16(pc);
            self.rf.pc = 0x0040 + (n as u16) * 8;
            self.halted = false;
            proof {
                assert(bus_write_rel(
                    old(self).bus,
                    m1,
                    0xFF0F,
                    (f - crate::cpu_ops::bit_mask(n as int)) as u8,
                ));
            }
            20
        } else {
            self.halted = false;
            0
        }
    }

    /// Decode and execute one instruction at PC; while halted the CPU
    /// idles four T-cycles instead.
    #[verifier::rlimit(100)]
    pub fn execute_instruction(&mut self) -> (r: u64)
        requires
            old(self).wf(),
        ensures
            final(self).wf(),
            instr_rel(*old(self), *final(self), r),
            4 <= r <= 24,
    {
        proof { reveal(instr_rel); }
        proof { reveal(primary_rel); }
        if self.halted {
            return 4;
        }
        let opcode = self.fetch_u8();
        match opcode {
            0x00 => (),
            0xCB => {
                return self.cb_execute_instruction();
            },
            0xF3 => {
                self.ime = false;
                self.pending_ime = false;
            },
            0xFB => {
                if !self.ime {
                    self.pending_ime = true;
                }
            },
            0x10 => {
                self.bus.timer.reset_divider();
            },
            0x76 => {
                self.halted = true;
            },
            0x01 | 0x11 | 0x21 | 0x31 => self.ld_r16_imm(opcode),
            0x06 | 0x16 | 0x26 | 0x36 | 0x0E | 0x1E | 0x2E | 0x3E => self.ld_r8_imm(opcode),
            0x02 | 0x12 | 0x22 | 0x32 | 0x0A | 0x1A | 0x2A | 0x3A => self.ld_ind_a(opcode),
            0x40..=0x75 | 0x77..=0x7F => self.ld_r8(opcode),
            0x08 => self.ld_ind_imm_sp(),
            0xF9 => self.ld_sp(),
            0xC1 | 0xD1 | 0xE1 | 0xF1 => self.pop(opcode),
            0xC5 | 0xD5 | 0xE5 | 0xF5 => self.push(opcode),
            0xF8 => self.ld_hl_sp_offset(),
            0xE0 | 0xF0 | 0xE2 | 0xF2 => self.ld_a_ind_offset(opcode),
            0xEA | 0xFA => self.ld_a_ind(opcode),
            0x07 | 0x17 | 0x0F | 0x1F => self.rotate_a(opcode),
            0x03 | 0x13 | 0x23 | 0x33 | 0x0B | 0x1B | 0x2B | 0x3B => self.incdec16(opcode),
            0x04 | 0x14 | 0x24 | 0x34 | 0x0C | 0x1C | 0x2C | 0x3C | 0x05 | 0x15 | 0x25 | 0x35
                | 0x0D | 0x1D | 0x2D | 0x3D => self.incdec8(opcode),
            0x09 | 0x19 | 0x29 | 0x39 => self.add16(opcode),
            0x80..=0xBF | 0xC6 | 0xCE | 0xD6 | 0xDE | 0xE6 | 0xEE | 0xF6 | 0xFE => self.alu(
                opcode,
            ),
            0x27 => self.daa(),
            0x37 => {
                self.rf.write_n(false);
                self.rf.write_h(false);
                self.rf.write_c(true);
            },
            0x2F => {
                self.rf.a = !self.rf.a;
                self.rf.write_n(true);
                self.rf.write_h(true);
            },
            0x3F => {
                let c = self.rf.read_c();
                self.rf.write_n(false);
                self.rf.write_h(false);
                self.rf.write_c(!c);
            },
            0xE8 => self.add_sp_imm(),
            0x18 | 0x28 | 0x38 | 0x20 | 0x30 => {
                return self.jr(opcode);
            },
            0xC0 | 0xD0 | 0xC8 | 0xD8 | 0xC9 | 0xD9 => {
                return self.ret(opcode);
            },
            0xC2 | 0xD2 | 0xC3 | 0xE9 | 0xCA | 0xDA => {
                return self.jp(opcode);
            },
            0xC4 | 0xD4 | 0xCC | 0xDC | 0xCD => {
                return self.call(opcode);
            },
            0xC7 | 0xD7 | 0xE7 | 0xF7 | 0xCF | 0xDF | 0xEF | 0xFF => self.rst(opcode),
            _ => (),
        }
        instr_cycles_of(opcode)
    }

    /// Decode and execute one CB-prefixed instruction.
    pub(crate) fn cb_execute_instruction(&mut self) -> (r: u64)
        requires
            old(self).wf(),
        ensures
            final(self).wf(),
            cb_rel(*old(self), *final(self), r),
            4 <= r <= 24,
    {
        proof { reveal(cb_rel); }
        let opcode = self.fetch_u8();
        if opcode < 0x40 {
            self.cb_shift(opcode);
        } else if opcode < 0x80 {
            self.cb_bit(opcode);
        } else {
            self.cb_res_set(opcode);
        }
        cb_cycles_of(opcode)
    }

    /// Advance the machine by one instruction boundary: service a pending
    /// interrupt, execute one instruction, apply the delayed EI, and step
    /// the bus by the cycles consumed.
    pub fn tick(&mut self) -> (r: u64)
        requires
            old(self).wf(),
        ensures
            final(self).wf(),
            cpu_tick_rel(*old(self), *final(self), r),
            4 <= r <= 44,
    {
        proof { reveal(cpu_tick_rel); }
        let was_pending = self.pending_ime;
        let icycles = self.handle_interrupts();
        let ghost c1 = *self;
        let ecycles = self.execute_instruction();
        let ghost c2 = *self;
        if was_pending && self.pending_ime {
            self.ime = true;
            self.pending_ime = false;
        }
        let cycles = icycles + ecycles;
        self.bus.tick(cycles);
        proof {
            assert(int_rel(*old(self), c1, icycles));
            assert(instr_rel(c1, c2, ecycles));
        }
        cycles
    }
}

/// The EI delay: executing EI with the master enable clear arms only the
/// pending flag; the master enable itself stays clear until after the next
/// instruction.
pub proof fn lemma_ei_delay(pre: Cpu, post: Cpu, r: u64)
    requires
        !pre.halted,
        !pre.ime,
        pre.bus.spec_read(pre.rf.pc) == 0xFB,
        instr_rel(pre, post, r),
    ensures
        !post.ime,
        post.pending_ime,
{
    reveal(instr_rel);
    reveal(primary_rel);
}

} // verus!
