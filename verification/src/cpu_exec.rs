//! Executable bodies of the SM83 instruction groups; each proves the
//! transition relation its opcode group carries in the dispatcher.

use vstd::prelude::*;

use crate::cpu::Cpu;
use crate::cpu::add_sp_rel;
use crate::cpu::jp_rel;
use crate::cpu::jr_rel;
use crate::cpu::call_rel;
use crate::cpu::ld_a_ind_offset_rel;
use crate::cpu::ld_a_ind_rel;
use crate::cpu::ld_hl_sp_rel;
use crate::cpu::ld_ind_a_rel;
use crate::cpu::ld_ind_imm_sp_rel;
use crate::cpu::ld_r16_imm_rel;
use crate::cpu::ld_r8_imm_rel;
use crate::cpu::ld_r8_rel;
use crate::cpu::pop_rel;
use crate::cpu::push_rel;
use crate::cpu::ret_rel;
use crate::cpu::rst_rel;
use crate::cpu_ops::add16_rel;
use crate::cpu_ops::alu_rel;
use crate::cpu_ops::bit_mask_of;
use crate::cpu_ops::branch_cycles;
use crate::cpu_ops::cb_bit_rel;
use crate::cpu_ops::cb_res_set_rel;
use crate::cpu_ops::cb_shift_rel;
use crate::cpu_ops::daa_rel;
use crate::cpu_ops::incdec16_rel;
use crate::cpu_ops::incdec8_rel;
use crate::cpu_ops::instr_cycles;
use crate::cpu_ops::instr_cycles_of;
use crate::cpu_ops::rot_a_rel;

verus! {

impl Cpu {
    pub(crate) fn ld_r16_imm(&mut self, opcode: u8)
        requires
            old(self).wf(),
            opcode == 0x01 || opcode == 0x11 || opcode == 0x21 || opcode == 0x31,
        ensures
            final(self).wf(),
            ld_r16_imm_rel(*old(self), *final(self), opcode),
    {
        proof { reveal(ld_r16_imm_rel); }
        let imm = self.fetch_u16();
        if opcode == 0x01 {
            self.rf.write_bc(imm);
        } else if opcode == 0x11 {
            self.rf.write_de(imm);
        } else if opcode == 0x21 {
            self.rf.write_hl(imm);
        } else {
            self.rf.sp = imm;
        }
    }

    pub(crate) fn ld_r8_imm(&mut self, opcode: u8)
        requires
            old(self).wf(),
        ensures
            final(self).wf(),
            ld_r8_imm_rel(*old(self), *final(self), opcode),
    {
        proof { reveal(ld_r8_imm_rel); }
        let imm = self.fetch_u8();
        let reg = (opcode / 8) % 8;
        self.write_r8(reg, imm);
    }

    #[verifier::rlimit(100)]
    pub(crate) fn ld_ind_a(&mut self, opcode: u8)
        requires
            old(self).wf(),
            opcode == 0x02 || opcode == 0x12 || opcode == 0x22 || opcode == 0x32 || opcode == 0x0A
                || opcode == 0x1A || opcode == 0x2A || opcode == 0x3A,
        ensures
            final(self).wf(),
            ld_ind_a_rel(*old(self), *final(self), opcode),
    {
        proof { reveal(ld_ind_a_rel); }
        if opcode == 0x02 {
            let addr = self.rf.read_bc();
            let a = self.rf.a;
            self.bus.write_u8(addr, a);
        } else if opcode == 0x12 {
            let addr = self.rf.read_de();
            let a = self.rf.a;
            self.bus.write_u8(addr, a);
        } else if opcode == 0x22 {
            let addr = self.rf.read_hl();
            let a = self.rf.a;
            self.bus.write_u8(addr, a);
            self.rf.write_hl(addr.wrapping_add(1));
        } else if opcode == 0x32 {
            let addr = self.rf.read_hl();
            let a = self.rf.a;
            self.bus.write_u8(addr, a);
            self.rf.write_hl(addr.wrapping_sub(1));
        } else if opcode == 0x0A {
            let addr = self.rf.read_bc();
            self.rf.a = self.bus.read_u8(addr);
        } else if opcode == 0x1A {
            let addr = self.rf.read_de();
            self.rf.a = self.bus.read_u8(addr);
        } else if opcode == 0x2A {
            let addr = self.rf.read_hl();
            self.rf.a = self.bus.read_u8(addr);
            self.rf.write_hl(addr.wrapping_add(1));
        } else {
            let addr = self.rf.read_hl();
            self.rf.a = self.bus.read_u8(addr);
            self.rf.write_hl(addr.wrapping_sub(1));
        }
    }

    pub(crate) fn ld_r8(&mut self, opcode: u8)
        requires
            old(self).wf(),
        ensures
            final(self).wf(),
            ld_r8_rel(*old(self), *final(self), opcode),
    {
        proof { reveal(ld_r8_rel); }
        let src = opcode % 8;
        let dest = (opcode / 8) % 8;
        let v = self.read_r8(src);
        self.write_r8(dest, v);
    }

    #[verifier::rlimit(100)]
    pub(crate) fn ld_ind_imm_sp(&mut self)
        requires
            old(self).wf(),
        ensures
            final(self).wf(),
            ld_ind_imm_sp_rel(*old(self), *final(self)),
    {
        proof { reveal(ld_ind_imm_sp_rel); }
        let addr = self.fetch_u16();
        let sp = self.rf.sp;
        self.bus.write_u16(addr, sp);
    }

    pub(crate) fn ld_sp(&mut self)
        requires
            old(self).wf(),
        ensures
            final(self).wf(),
            final(self).rf.sp == old(self).rf.spec_hl(),
            *final(self) == (Cpu {
                rf: crate::regs::RegisterFile { sp: final(self).rf.sp, ..old(self).rf },
                ..*old(self)
            }),
    {
        self.rf.sp = self.rf.read_hl();
    }

    pub(crate) fn pop(&mut self, opcode: u8)
        requires
            old(self).wf(),
            opcode == 0xC1 || opcode == 0xD1 || opcode == 0xE1 || opcode == 0xF1,
        ensures
            final(self).wf(),
            pop_rel(*old(self), *final(self), opcode),
    {
        proof { reveal(pop_rel); }
        let val = self.pop_u16();
        if opcode == 0xC1 {
            self.rf.write_bc(val);
        } else if opcode == 0xD1 {
            self.rf.write_de(val);
        } else if opcode == 0xE1 {
            self.rf.write_hl(val);
        } else {
            self.rf.write_af(val);
        }
    }

    pub(crate) fn push(&mut self, opcode: u8)
        requires
            old(self).wf(),
            opcode == 0xC5 || opcode == 0xD5 || opcode == 0xE5 || opcode == 0xF5,
        ensures
            final(self).wf(),
            push_rel(*old(self), *final(self), opcode),
    {
        proof { reveal(push_rel); }
        let v = if opcode == 0xC5 {
            self.rf.read_bc()
        } else if opcode == 0xD5 {
            self.rf.read_de()
        } else if opcode == 0xE5 {
            self.rf.read_hl()
        } else {
            self.rf.read_af()
        };
        self.push_u16(v);
    }

    pub(crate) fn ld_hl_sp_offset(&mut self)
        requires
            old(self).wf(),
        ensures
            final(self).wf(),
            ld_hl_sp_rel(*old(self), *final(self)),
    {
        proof { reveal(ld_hl_sp_rel); }
        let b = self.fetch_u8();
        let sp = self.rf.sp;
        self.rf.write_z(false);
        self.rf.write_n(false);
        self.rf.write_h(sp % 16 + (b as u16) % 16 > 15);
        self.rf.write_c(sp % 256 + (b as u16) > 255);
        let v = if b < 128 {
            sp.wrapping_add(b as u16)
        } else {
            sp.wrapping_sub(256 - (b as u16))
        };
        self.rf.write_hl(v);
    }

    pub(crate) fn add_sp_imm(&mut self)
        requires
            old(self).wf(),
        ensures
            final(self).wf(),
            add_sp_rel(*old(self), *final(self)),
    {
        proof { reveal(add_sp_rel); }
        let b = self.fetch_u8();
        let sp = self.rf.sp;
        self.rf.write_z(false);
        self.rf.write_n(false);
        self.rf.write_h(sp % 16 + (b as u16) % 16 > 15);
        self.rf.write_c(sp % 256 + (b as u16) > 255);
        self.rf.sp = if b < 128 {
            sp.wrapping_add(b as u16)
        } else {
            sp.wrapping_sub(256 - (b as u16))
        };
    }

    pub(crate) fn ld_a_ind_offset(&mut self, opcode: u8)
        requires
            old(self).wf(),
            opcode == 0xE0 || opcode == 0xF0 || opcode == 0xE2 || opcode == 0xF2,
        ensures
            final(self).wf(),
            ld_a_ind_offset_rel(*old(self), *final(self), opcode),
    {
        proof { reveal(ld_a_ind_offset_rel); }
        if opcode == 0xE0 {
            let n = self.fetch_u8();
            let a = self.rf.a;
            self.bus.write_u8(0xFF00 + (n as u16), a);
        } else if opcode == 0xF0 {
            let n = self.fetch_u8();
            self.rf.a = self.bus.read_u8(0xFF00 + (n as u16));
        } else if opcode == 0xE2 {
            let a = self.rf.a;
            let c = self.rf.c;
            self.bus.write_u8(0xFF00 + (c as u16), a);
        } else {
            let c = self.rf.c;
            self.rf.a = self.bus.read_u8(0xFF00 + (c as u16));
        }
    }

    pub(crate) fn ld_a_ind(&mut self, opcode: u8)
        requires
            old(self).wf(),
            opcode == 0xEA || opcode == 0xFA,
        ensures
            final(self).wf(),
            ld_a_ind_rel(*old(self), *final(self), opcode),
    {
        proof { reveal(ld_a_ind_rel); }
        let addr = self.fetch_u16();
        if opcode == 0xEA {
            let a = self.rf.a;
            self.bus.write_u8(addr, a);
        } else {
            self.rf.a = self.bus.read_u8(addr);
        }
    }

    pub(crate) fn rotate_a(&mut self, opcode: u8)
        requires
            old(self).wf(),
            opcode == 0x07 || opcode == 0x17 || opcode == 0x0F || opcode == 0x1F,
        ensures
            final(self).wf(),
            rot_a_rel(*old(self), *final(self), opcode),
    {
        proof { reveal(rot_a_rel); }
        let a = self.rf.a;
        let cin: u8 = if self.rf.read_c() {
            1
        } else {
            0
        };
        let res: u8;
        let carry: bool;
        if opcode == 0x07 {
            res = (a % 128) * 2 + a / 128;
            carry = a >= 128;
        } else if opcode == 0x17 {
            res = (a % 128) * 2 + cin;
            carry = a >= 128;
        } else if opcode == 0x0F {
            res = a / 2 + (a % 2) * 128;
            carry = a % 2 == 1;
        } else {
            res = a / 2 + cin * 128;
            carry = a % 2 == 1;
        }
        self.rf.write_z(false);
        self.rf.write_n(false);
        self.rf.write_h(false);
        self.rf.write_c(carry);
        self.rf.a = res;
    }

    #[verifier::rlimit(100)]
    pub(crate) fn incdec16(&mut self, opcode: u8)
        requires
            old(self).wf(),
            opcode == 0x03 || opcode == 0x13 || opcode == 0x23 || opcode == 0x33 || opcode == 0x0B
                || opcode == 0x1B || opcode == 0x2B || opcode == 0x3B,
        ensures
            final(self).wf(),
            incdec16_rel(*old(self), *final(self), opcode),
    {
        proof { reveal(incdec16_rel); }
        let inc = opcode % 16 == 3;
        if opcode < 0x10 {
            let v = self.rf.read_bc();
            self.rf.write_bc(if inc {
                v.wrapping_add(1)
            } else {
                v.wrapping_sub(1)
            });
        } else if opcode < 0x20 {
            let v = self.rf.read_de();
            self.rf.write_de(if inc {
                v.wrapping_add(1)
            } else {
                v.wrapping_sub(1)
            });
        } else if opcode < 0x30 {
            let v = self.rf.read_hl();
            self.rf.write_hl(if inc {
                v.wrapping_add(1)
            } else {
                v.wrapping_sub(1)
            });
        } else {
            let v = self.rf.sp;
            self.rf.sp = if inc {
                v.wrapping_add(1)
            } else {
                v.wrapping_sub(1)
            };
        }
    }

    pub(crate) fn incdec8(&mut self, opcode: u8)
        requires
            old(self).wf(),
            opcode < 0x40,
            opcode % 8 == 4 || opcode % 8 == 5,
        ensures
            final(self).wf(),
            incdec8_rel(*old(self), *final(self), opcode),
    {
        proof { reveal(incdec8_rel); }
        let reg = (opcode / 8) % 8;
        let val = self.read_r8(reg);
        let inc = opcode % 8 == 4;
        let res = if inc {
            val.wrapping_add(1)
        } else {
            val.wrapping_sub(1)
        };
        self.rf.write_z(res == 0);
        self.rf.write_n(!inc);
        self.rf.write_h(if inc {
            val % 16 == 15
        } else {
            val % 16 == 0
        });
        self.write_r8(reg, res);
    }

    #[verifier::rlimit(100)]
    pub(crate) fn add16(&mut self, opcode: u8)
        requires
            old(self).wf(),
            opcode == 0x09 || opcode == 0x19 || opcode == 0x29 || opcode == 0x39,
        ensures
            final(self).wf(),
            add16_rel(*old(self), *final(self), opcode),
    {
        proof { reveal(add16_rel); }
        let a = self.rf.read_hl();
        let b = if opcode == 0x09 {
            self.rf.read_bc()
        } else if opcode == 0x19 {
            self.rf.read_de()
        } else if opcode == 0x29 {
            self.rf.read_hl()
        } else {
            self.rf.sp
        };
        let res = a.wrapping_add(b);
        self.rf.write_n(false);
        self.rf.write_h(a % 0x1000 + b % 0x1000 > 0xFFF);
        self.rf.write_c((a as u32) + (b as u32) > 0xFFFF);
        self.rf.write_hl(res);
    }

    pub(crate) fn alu(&mut self, opcode: u8)
        requires
            old(self).wf(),
            (0x80 <= opcode < 0xC0) || (opcode >= 0xC0 && opcode % 8 == 6),
        ensures
            final(self).wf(),
            alu_rel(*old(self), *final(self), opcode),
    {
        let g: u8 = if opcode < 0xC0 {
            (opcode - 0x80) / 8
        } else {
            (opcode - 0xC6) / 8
        };
        if g == 0 || g == 1 {
            self.alu_add(opcode, g);
        } else if g == 2 || g == 3 || g == 7 {
            self.alu_sub(opcode, g);
        } else {
            self.alu_bitwise(opcode, g);
        }
    }

    #[verifier::rlimit(100)]
    fn alu_add(&mut self, opcode: u8, g: u8)
        requires
            old(self).wf(),
            (0x80 <= opcode < 0xC0) || (opcode >= 0xC0 && opcode % 8 == 6),
            g == crate::cpu_ops::alu_group(opcode),
            g == 0 || g == 1,
        ensures
            final(self).wf(),
            alu_rel(*old(self), *final(self), opcode),
    {
        proof { reveal(alu_rel); }
        let b = if opcode >= 0xC0 {
            self.fetch_u8()
        } else {
            self.read_r8(opcode % 8)
        };
        let a = self.rf.a;
        let cin: u8 = if g == 1 && self.rf.read_c() {
            1
        } else {
            0
        };
        let sum: u16 = (a as u16) + (b as u16) + (cin as u16);
        let res = (sum % 256) as u8;
        self.rf.write_z(res == 0);
        self.rf.write_n(false);
        self.rf.write_h(a % 16 + b % 16 + cin > 15);
        self.rf.write_c(sum > 255);
        self.rf.a = res;
    }

    #[verifier::rlimit(100)]
    #[verifier::spinoff_prover]
    fn alu_sub(&mut self, opcode: u8, g: u8)
        requires
            old(self).wf(),
            (0x80 <= opcode < 0xC0) || (opcode >= 0xC0 && opcode % 8 == 6),
            g == crate::cpu_ops::alu_group(opcode),
            g == 2 || g == 3 || g == 7,
        ensures
            final(self).wf(),
            alu_rel(*old(self), *final(self), opcode),
    {
        proof { reveal(alu_rel); }
        let b = if opcode >= 0xC0 {
            self.fetch_u8()
        } else {
            self.read_r8(opcode % 8)
        };
        let a = self.rf.a;
        let cin: u8 = if g == 3 && self.rf.read_c() {
            1
        } else {
            0
        };
        let res = (((a as u16) + 512 - (b as u16) - (cin as u16)) % 256) as u8;
        self.rf.write_z(res == 0);
        self.rf.write_n(true);
        self.rf.write_h((a % 16) < (b % 16) + cin);
        self.rf.write_c((a as u16) < (b as u16) + (cin as u16));
        proof {
            assert((a + 512 - b - cin) % 256 == ((a - b - cin) as int) % 256) by (nonlinear_arith)
                requires
                    a < 256 && b < 256 && cin < 256,
            ;
        }
        if g != 7 {
            self.rf.a = res;
        }
    }

    #[verifier::rlimit(100)]
    fn alu_bitwise(&mut self, opcode: u8, g: u8)
        requires
            old(self).wf(),
            (0x80 <= opcode < 0xC0) || (opcode >= 0xC0 && opcode % 8 == 6),
            g == crate::cpu_ops::alu_group(opcode),
            g == 4 || g == 5 || g == 6,
        ensures
            final(self).wf(),
            alu_rel(*old(self), *final(self), opcode),
    {
        proof { reveal(alu_rel); }
        let b = if opcode >= 0xC0 {
            self.fetch_u8()
        } else {
            self.read_r8(opcode % 8)
        };
        let a = self.rf.a;
        let res = if g == 4 {
            a & b
        } else if g == 5 {
            a ^ b
        } else {
            a | b
        };
        self.rf.write_z(res == 0);
        self.rf.write_n(false);
        self.rf.write_h(g == 4);
        self.rf.write_c(false);
        self.rf.a = res;
    }

    pub(crate) fn daa(&mut self)
        requires
            old(self).wf(),
        ensures
            final(self).wf(),
            daa_rel(*old(self), *final(self)),
    {
        proof { reveal(daa_rel); }
        let a = self.rf.a;
        let off: u8 = if self.rf.read_n() {
            (if self.rf.read_h() {
                6u8
            } else {
                0u8
            }) + (if self.rf.read_c() {
                0x60u8
            } else {
                0u8
            })
        } else {
            (if self.rf.read_h() || a % 16 > 9 {
                6u8
            } else {
                0u8
            }) + (if self.rf.read_c() || a > 0x99 {
                0x60u8
            } else {
                0u8
            })
        };
        let res = if self.rf.read_n() {
            a.wrapping_sub(off)
        } else {
            a.wrapping_add(off)
        };
        self.rf.write_z(res == 0);
        self.rf.write_h(false);
        self.rf.write_c(off >= 0x60);
        self.rf.a = res;
    }

    pub(crate) fn jr(&mut self, opcode: u8) -> (r: u64)
        requires
            old(self).wf(),
            opcode == 0x18 || opcode == 0x28 || opcode == 0x38 || opcode == 0x20 || opcode == 0x30,
        ensures
            final(self).wf(),
            jr_rel(*old(self), *final(self), opcode, r),
            4 <= r <= 24,
    {
        proof { reveal(jr_rel); }
        let b = self.fetch_u8();
        let cond = if opcode == 0x18 {
            true
        } else if opcode == 0x28 {
            self.rf.read_z()
        } else if opcode == 0x38 {
            self.rf.read_c()
        } else if opcode == 0x20 {
            !self.rf.read_z()
        } else {
            !self.rf.read_c()
        };
        if cond {
            self.rf.pc = if b < 128 {
                self.rf.pc.wrapping_add(b as u16)
            } else {
                self.rf.pc.wrapping_sub(256 - (b as u16))
            };
            12
        } else {
            8
        }
    }

    pub(crate) fn ret(&mut self, opcode: u8) -> (r: u64)
        requires
            old(self).wf(),
            opcode == 0xC0 || opcode == 0xD0 || opcode == 0xC8 || opcode == 0xD8 || opcode == 0xC9
                || opcode == 0xD9,
        ensures
            final(self).wf(),
            ret_rel(*old(self), *final(self), opcode, r),
            4 <= r <= 24,
    {
        proof { reveal(ret_rel); }
        let cond = if opcode == 0xC0 {
            !self.rf.read_z()
        } else if opcode == 0xD0 {
            !self.rf.read_c()
        } else if opcode == 0xC8 {
            self.rf.read_z()
        } else if opcode == 0xD8 {
            self.rf.read_c()
        } else {
            true
        };
        if opcode == 0xD9 {
            self.ime = true;
        }
        if cond {
            let v = self.pop_u16();
            self.rf.pc = v;
            if opcode == 0xC9 || opcode == 0xD9 {
                16
            } else {
                20
            }
        } else {
            8
        }
    }

    pub(crate) fn jp(&mut self, opcode: u8) -> (r: u64)
        requires
            old(self).wf(),
            opcode == 0xC2 || opcode == 0xD2 || opcode == 0xC3 || opcode == 0xE9 || opcode == 0xCA
                || opcode == 0xDA,
        ensures
            final(self).wf(),
            jp_rel(*old(self), *final(self), opcode, r),
            4 <= r <= 24,
    {
        proof { reveal(jp_rel); }
        let addr = if opcode == 0xE9 {
            self.rf.read_hl()
        } else {
            self.fetch_u16()
        };
        let cond = if opcode == 0xC2 {
            !self.rf.read_z()
        } else if opcode == 0xD2 {
            !self.rf.read_c()
        } else if opcode == 0xCA {
            self.rf.read_z()
        } else if opcode == 0xDA {
            self.rf.read_c()
        } else {
            true
        };
        if cond {
            self.rf.pc = addr;
            if opcode == 0xE9 {
                4
            } else {
                16
            }
        } else {
            12
        }
    }

    pub(crate) fn call(&mut self, opcode: u8) -> (r: u64)
        requires
            old(self).wf(),
            opcode == 0xC4 || opcode == 0xD4 || opcode == 0xCC || opcode == 0xDC || opcode == 0xCD,
        ensures
            final(self).wf(),
            call_rel(*old(self), *final(self), opcode, r),
            4 <= r <= 24,
    {
        proof { reveal(call_rel); }
        let addr = self.fetch_u16();
        let cond = if opcode == 0xC4 {
            !self.rf.read_z()
        } else if opcode == 0xD4 {
            !self.rf.read_c()
        } else if opcode == 0xCC {
            self.rf.read_z()
        } else if opcode == 0xDC {
            self.rf.read_c()
        } else {
            true
        };
        if cond {
            let pc = self.rf.pc;
            self.push_u16(pc);
            self.rf.pc = addr;
            24
        } else {
            12
        }
    }

    pub(crate) fn rst(&mut self, opcode: u8)
        requires
            old(self).wf(),
            opcode % 8 == 7 && opcode >= 0xC0,
        ensures
            final(self).wf(),
            rst_rel(*old(self), *final(self), opcode),
    {
        proof { reveal(rst_rel); }
        let pc = self.rf.pc;
        self.push_u16(pc);
        self.rf.pc = (((opcode / 8) % 8) as u16) * 8;
    }

    #[verifier::rlimit(100)]
    pub(crate) fn cb_shift(&mut self, opcode: u8)
        requires
            old(self).wf(),
            opcode < 0x40,
        ensures
            final(self).wf(),
            cb_shift_rel(*old(self), *final(self), opcode),
    {
        proof { reveal(cb_shift_rel); }
        let reg = opcode % 8;
        let v = self.read_r8(reg);
        let sub = opcode / 8;
        let cin: u8 = if self.rf.read_c() {
            1
        } else {
            0
        };
        let res: u8;
        let carry: bool;
        if sub == 0 {
            res = (v % 128) * 2 + v / 128;
            carry = v >= 128;
        } else if sub == 1 {
            res = v / 2 + (v % 2) * 128;
            carry = v % 2 == 1;
        } else if sub == 2 {
            res = (v % 128) * 2 + cin;
            carry = v >= 128;
        } else if sub == 3 {
            res = v / 2 + cin * 128;
            carry = v % 2 == 1;
        } else if sub == 4 {
            res = (v % 128) * 2;
            carry = v >= 128;
        } else if sub == 5 {
            res = v / 2 + (v / 128) * 128;
            carry = v % 2 == 1;
        } else if sub == 6 {
            res = (v % 16) * 16 + v / 16;
            carry = false;
        } else {
            res = v / 2;
            carry = v % 2 == 1;
        }
        self.rf.write_z(res == 0);
        self.rf.write_n(false);
        self.rf.write_h(false);
        self.rf.write_c(carry);
        self.write_r8(reg, res);
    }

    pub(crate) fn cb_bit(&mut self, opcode: u8)
        requires
            old(self).wf(),
            0x40 <= opcode < 0x80,
        ensures
            final(self).wf(),
            cb_bit_rel(*old(self), *final(self), opcode),
    {
        proof { reveal(cb_bit_rel); }
        let reg = opcode % 8;
        let idx = (opcode / 8) % 8;
        let v = self.read_r8(reg);
        let m = bit_mask_of(idx);
        self.rf.write_z((v / m) % 2 == 0);
        self.rf.write_n(false);
        self.rf.write_h(true);
    }

    pub(crate) fn cb_res_set(&mut self, opcode: u8)
        requires
            old(self).wf(),
            opcode >= 0x80,
        ensures
            final(self).wf(),
            cb_res_set_rel(*old(self), *final(self), opcode),
    {
        proof { reveal(cb_res_set_rel); }
        let reg = opcode % 8;
        let idx = (opcode / 8) % 8;
        let v = self.read_r8(reg);
        let m = bit_mask_of(idx);
        let res = crate::util::set_bit(v, m, opcode >= 0xC0);
        self.write_r8(reg, res);
    }
}

} // verus!
