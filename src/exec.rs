use vstd::prelude::*;

use crate::flag::FlagType;
use crate::instr::{AluOp, Cond, Instr, Pair, Reg, StackPair};
use crate::io::IO;
use crate::model::{
    acc_spec, alu_result, alu_spec, call_spec, can_pop, can_push, cond_holds, dad_spec,
    execute_spec, hl, imm16, imm8, in_memory, interrupt_spec, operands_in_range, pair_get,
    pair_set, pc_plus, popped_sp, push_spec, reg_get, reg_set, ret_spec, stack_pair_get, stack_pair_set,
    step_reg_spec, step_spec, ExecError,
};
use crate::state::{CpuModel, State};
use crate::utils::{
    check_flag_ac, check_flag_cy, check_flag_p, check_flag_s, check_flag_z, join_bytes, set_flag,
    split_bytes,
};

verus! {

impl State {
    fn put_flag(&mut self, f: FlagType, on: bool)
        ensures
            final(self)@ == set_flag(old(self)@, f, on),
    {
        if on {
            self.flags.set(f);
        } else {
            self.flags.unset(f);
        }
    }

    fn pc_after(&self, n: u16) -> (r: u16)
        ensures
            r == pc_plus(self@, n as int),
    {
        self.pc.wrapping_add(n)
    }

    fn read_pair(&self, p: Pair) -> (r: u16)
        ensures
            r == pair_get(self@, p),
    {
        match p {
            Pair::BC => join_bytes(self.b, self.c),
            Pair::DE => join_bytes(self.d, self.e),
            Pair::HL => join_bytes(self.h, self.l),
            Pair::SP => self.sp,
        }
    }

    fn write_pair(&mut self, p: Pair, w: u16)
        ensures
            final(self)@ == pair_set(old(self)@, p, w),
    {
        let (hi, lo) = split_bytes(w);
        match p {
            Pair::BC => {
                self.b = hi;
                self.c = lo;
            },
            Pair::DE => {
                self.d = hi;
                self.e = lo;
            },
            Pair::HL => {
                self.h = hi;
                self.l = lo;
            },
            Pair::SP => self.sp = w,
        }
    }

    fn bump_pair(&mut self, p: Pair, up: bool)
        ensures
            final(self)@ == pair_set(
                old(self)@,
                p,
                if up {
                    ((pair_get(old(self)@, p) + 1) % 0x10000) as u16
                } else {
                    ((pair_get(old(self)@, p) + 0xffff) % 0x10000) as u16
                },
            ),
    {
        let w = self.read_pair(p);
        let n = if up {
            w.wrapping_add(1)
        } else {
            w.wrapping_sub(1)
        };
        self.write_pair(p, n);
    }

    fn read_reg(&self, r: Reg) -> (v: u8)
        requires
            r == Reg::M ==> in_memory(self@, hl(self@) as int),
        ensures
            v == reg_get(self@, r),
    {
        match r {
            Reg::B => self.b,
            Reg::C => self.c,
            Reg::D => self.d,
            Reg::E => self.e,
            Reg::H => self.h,
            Reg::L => self.l,
            Reg::M => self.mem[join_bytes(self.h, self.l) as usize],
            Reg::A => self.a,
        }
    }

    fn write_reg(&mut self, r: Reg, v: u8)
        requires
            r == Reg::M ==> in_memory(old(self)@, hl(old(self)@) as int),
        ensures
            final(self)@ == reg_set(old(self)@, r, v),
    {
        match r {
            Reg::B => self.b = v,
            Reg::C => self.c = v,
            Reg::D => self.d = v,
            Reg::E => self.e = v,
            Reg::H => self.h = v,
            Reg::L => self.l = v,
            Reg::M => {
                let adr = join_bytes(self.h, self.l) as usize;
                self.mem.set(adr, v);
            },
            Reg::A => self.a = v,
        }
    }

    fn operand_byte(&self) -> (r: u8)
        requires
            in_memory(self@, self.pc + 1),
        ensures
            r == imm8(self@),
    {
        self.mem[self.pc as usize + 1]
    }

    fn operand_word(&self) -> (r: u16)
        requires
            in_memory(self@, self.pc + 2),
        ensures
            r == imm16(self@),
    {
        join_bytes(self.mem[self.pc as usize + 2], self.mem[self.pc as usize + 1])
    }

    fn cond(&self, c: Cond) -> (r: bool)
        ensures
            r == cond_holds(self.flags.reg, c),
    {
        match c {
            Cond::NotZero => self.flags.get(FlagType::Z) != 1,
            Cond::Zero => self.flags.get(FlagType::Z) == 1,
            Cond::NoCarry => self.flags.get(FlagType::CY) != 1,
            Cond::Carry => self.flags.get(FlagType::CY) == 1,
            Cond::ParityOdd => self.flags.get(FlagType::P) != 1,
            Cond::ParityEven => self.flags.get(FlagType::P) == 1,
            Cond::Plus => self.flags.get(FlagType::S) != 1,
            Cond::Minus => self.flags.get(FlagType::S) == 1,
        }
    }

    fn push(&mut self, hi: u8, lo: u8)
        requires
            can_push(old(self)@),
        ensures
            final(self)@ == push_spec(old(self)@, hi, lo),
    {
        let sp = self.sp as usize;
        self.mem.set(sp - 1, hi);
        self.mem.set(sp - 2, lo);
        self.sp = self.sp - 2;
    }

    fn stack_pair_bytes(&self, p: StackPair) -> (r: (u8, u8))
        ensures
            r == stack_pair_get(self@, p),
    {
        match p {
            StackPair::BC => (self.b, self.c),
            StackPair::DE => (self.d, self.e),
            StackPair::HL => (self.h, self.l),
            StackPair::PSW => (self.a, self.flags.reg),
        }
    }

    fn set_stack_pair(&mut self, p: StackPair, hi: u8, lo: u8)
        ensures
            final(self)@ == stack_pair_set(old(self)@, p, hi, lo),
    {
        match p {
            StackPair::BC => {
                self.b = hi;
                self.c = lo;
            },
            StackPair::DE => {
                self.d = hi;
                self.e = lo;
            },
            StackPair::HL => {
                self.h = hi;
                self.l = lo;
            },
            StackPair::PSW => {
                self.a = hi;
                self.flags.reg = lo;
            },
        }
    }

    fn pop(&mut self, p: StackPair)
        requires
            can_pop(old(self)@),
        ensures
            final(self)@ == (CpuModel {
                sp: popped_sp(old(self)@),
                ..stack_pair_set(
                    old(self)@,
                    p,
                    old(self)@.mem[old(self).sp + 1],
                    old(self)@.mem[old(self).sp as int],
                )
            }),
    {
        let sp = self.sp as usize;
        let lo = self.mem[sp];
        let hi = self.mem[sp + 1];
        self.set_stack_pair(p, hi, lo);
        self.sp = self.sp.wrapping_add(2);
    }

    fn call(&mut self, ret: u16, target: u16)
        requires
            can_push(old(self)@),
        ensures
            final(self)@ == call_spec(old(self)@, ret, target),
    {
        let (hi, lo) = split_bytes(ret);
        self.push(hi, lo);
        self.pc = target;
    }

    fn ret(&mut self)
        requires
            can_pop(old(self)@),
        ensures
            final(self)@ == ret_spec(old(self)@),
    {
        let sp = self.sp as usize;
        self.pc = join_bytes(self.mem[sp + 1], self.mem[sp]);
        self.sp = self.sp.wrapping_add(2);
    }

    fn alu(&mut self, op: AluOp, v: u8, ac: bool)
        ensures
            final(self)@ == alu_spec(old(self)@, op, v, ac),
    {
        let a = self.a;
        let c = self.flags.get(FlagType::CY);
        let (res, wide): (u8, u16) = match op {
            AluOp::Add => (a.wrapping_add(v), a as u16 + v as u16),
            AluOp::Adc => (a.wrapping_add(v).wrapping_add(c), a as u16 + v as u16 + c as u16),
            AluOp::Sub => (a.wrapping_sub(v), (a as u16).wrapping_sub(v as u16)),
            AluOp::Sbb => (
                a.wrapping_sub(v).wrapping_sub(c),
                (a as u16).wrapping_sub(v as u16).wrapping_sub(c as u16),
            ),
            AluOp::Ana => (a & v, (a & v) as u16),
            AluOp::Xra => (a ^ v, (a ^ v) as u16),
            AluOp::Ora => (a | v, (a | v) as u16),
            AluOp::Cmp => (a.wrapping_sub(v), (a as u16).wrapping_sub(v as u16)),
        };
        assert((res, wide > 0xff) == alu_result(op, a, v, c));
        check_flag_cy(wide, self);
        if ac {
            check_flag_ac(a, res, self);
        }
        if op != AluOp::Cmp {
            self.a = res;
        }
        check_flag_z(res, self);
        check_flag_s(res, self);
        check_flag_p(res, self);
    }

    #[verifier::rlimit(100)]
    fn step_reg(&mut self, r: Reg, up: bool)
        requires
            r == Reg::M ==> in_memory(old(self)@, hl(old(self)@) as int),
        ensures
            final(self)@ == step_reg_spec(old(self)@, r, up),
    {
        let v = self.read_reg(r);
        let res = if up {
            v.wrapping_add(1)
        } else {
            v.wrapping_sub(1)
        };
        if r != Reg::M {
            check_flag_ac(v, res, self);
        }
        self.write_reg(r, res);
        check_flag_z(res, self);
        check_flag_s(res, self);
        check_flag_p(res, self);
    }

    fn dad(&mut self, p: Pair)
        ensures
            final(self)@ == dad_spec(old(self)@, p),
    {
        let hl = join_bytes(self.h, self.l);
        let w = self.read_pair(p);
        let sum: u32 = hl as u32 + w as u32;
        self.put_flag(FlagType::CY, sum > 0xffff);
        self.write_pair(Pair::HL, (sum % 0x10000) as u16);
    }

    fn acc(&mut self, i: Instr)
        ensures
            final(self)@ == acc_spec(old(self)@, i),
    {
        let a = self.a;
        match i {
            Instr::Rlc => {
                check_flag_cy(a as u16 * 2, self);
                self.a = (a % 128) * 2 + a / 128;
            },
            Instr::Rrc => {
                self.put_flag(FlagType::CY, a % 2 == 1);
                self.a = a / 2 + (a % 2) * 128;
            },
            Instr::Ral => {
                let prev = self.flags.get(FlagType::CY);
                check_flag_cy(a as u16 * 2, self);
                self.a = (a % 128) * 2 + prev;
            },
            Instr::Rar => {
                self.put_flag(FlagType::CY, a % 2 == 1);
                self.a = a / 2 + (a / 128) * 128;
            },
            Instr::Daa => {
                if a % 16 > 9 {
                    self.a = a.wrapping_add(6);
                }
            },
            Instr::Cma => self.a = 255 - a,
            Instr::Stc => self.flags.set(FlagType::CY),
            Instr::Cmc => {
                let on = self.flags.get(FlagType::CY) == 1;
                self.put_flag(FlagType::CY, !on);
            },
            _ => {},
        }
    }

    fn stack_in_range(&self, push: bool) -> (r: bool)
        ensures
            r == if push {
                can_push(self@)
            } else {
                can_pop(self@)
            },
    {
        let sp = self.sp as usize;
        if push {
            sp >= 2 && sp - 1 < self.mem.len()
        } else {
            sp + 1 < self.mem.len()
        }
    }

    fn operands_ok(&self, i: Instr) -> (r: bool)
        ensures
            r == operands_in_range(self@, i),
    {
        let len = i.len() as usize;
        if self.pc as usize + len - 1 >= self.mem.len() {
            return false;
        }
        let n = self.mem.len();
        match i {
            Instr::Stax(p) | Instr::Ldax(p) => (self.read_pair(p) as usize) < n,
            Instr::Inr(r) | Instr::Dcr(r) | Instr::Mvi(r) | Instr::Alu(_, r) => r != Reg::M
                || (join_bytes(self.h, self.l) as usize) < n,
            Instr::Mov(d, r) => (d != Reg::M && r != Reg::M) || (join_bytes(self.h, self.l)
                as usize) < n,
            Instr::Shld | Instr::Lhld => (self.operand_word() as usize) + 1 < n,
            Instr::Sta | Instr::Lda => (self.operand_word() as usize) < n,
            Instr::Call | Instr::Rst(_) | Instr::Push(_) => self.stack_in_range(true),
            Instr::Ccc(c) => !self.cond(c) || self.stack_in_range(true),
            Instr::Ret | Instr::Pop(_) | Instr::Xthl => self.stack_in_range(false),
            Instr::Rcc(c) => !self.cond(c) || self.stack_in_range(false),
            _ => true,
        }
    }

    /// Jumps, calls, returns and restarts.
    #[verifier::rlimit(100)]
    fn exec_branch(&mut self, io: &IO, i: Instr)
        requires
            operands_in_range(old(self)@, i),
            i is Jmp || i is Jcc || i is Call || i is Ccc || i is Ret || i is Rcc || i is Rst || i is Pchl,
        ensures
            (final(self)@, *io) == execute_spec(old(self)@, *io, i),
    {
        let next = self.pc_after(i.len() as u16);
        match i {
            Instr::Jmp => self.pc = self.operand_word(),
            Instr::Jcc(c) => {
                if self.cond(c) {
                    self.pc = self.operand_word();
                } else {
                    self.pc = next;
                }
            },
            Instr::Call => {
                let target = self.operand_word();
                self.call(next, target);
            },
            Instr::Ccc(c) => {
                if self.cond(c) {
                    let target = self.operand_word();
                    self.call(next, target);
                } else {
                    self.pc = next;
                }
            },
            Instr::Ret => self.ret(),
            Instr::Rcc(c) => {
                if self.cond(c) {
                    self.ret();
                } else {
                    self.pc = next;
                }
            },
            Instr::Rst(n) => self.call(next, 8 * (n as u16)),
            Instr::Pchl => self.pc = join_bytes(self.h, self.l),
            _ => {},
        }
    }

    fn exec_push(&mut self, io: &IO, p: StackPair)
        requires
            operands_in_range(old(self)@, Instr::Push(p)),
        ensures
            (final(self)@, *io) == execute_spec(old(self)@, *io, Instr::Push(p)),
    {
        let next = self.pc_after(Instr::Push(p).len() as u16);
        let (hi, lo) = self.stack_pair_bytes(p);
        self.push(hi, lo);
        self.pc = next;
    }

    #[verifier::rlimit(100)]
    fn exec_pop(&mut self, io: &IO, p: StackPair)
        requires
            operands_in_range(old(self)@, Instr::Pop(p)),
        ensures
            (final(self)@, *io) == execute_spec(old(self)@, *io, Instr::Pop(p)),
    {
        let next = self.pc_after(Instr::Pop(p).len() as u16);
        self.pop(p);
        self.pc = next;
    }

    fn exec_xthl(&mut self, io: &IO)
        requires
            operands_in_range(old(self)@, Instr::Xthl),
        ensures
            (final(self)@, *io) == execute_spec(old(self)@, *io, Instr::Xthl),
    {
        let next = self.pc_after(Instr::Xthl.len() as u16);
        let sp = self.sp as usize;
        let lo = self.mem[sp];
        let hi = self.mem[sp + 1];
        self.mem.set(sp, self.l);
        self.mem.set(sp + 1, self.h);
        self.l = lo;
        self.h = hi;
        self.pc = next;
    }

    /// IN and OUT, through the peripheral.
    #[verifier::rlimit(100)]
    fn exec_port(&mut self, io: &mut IO, i: Instr)
        requires
            operands_in_range(old(self)@, i),
            i is In || i is Out,
        ensures
            (final(self)@, *final(io)) == execute_spec(old(self)@, *old(io), i),
    {
        let next = self.pc_after(i.len() as u16);
        match i {
            Instr::In => {
                let port = self.operand_byte();
                self.a = io.machine_in(port);
                self.pc = next;
            },
            Instr::Out => {
                let port = self.operand_byte();
                io.machine_out(port, self.a);
                self.pc = next;
            },
            _ => {},
        }
    }

    /// Instructions that only move registers or the enable latch.
    #[verifier::rlimit(100)]
    fn exec_misc(&mut self, io: &IO, i: Instr)
        requires
            operands_in_range(old(self)@, i),
            i is Xchg || i is Sphl || i is Di || i is Ei || i is Nop || i is Hlt || i is Unimplemented,
        ensures
            (final(self)@, *io) == execute_spec(old(self)@, *io, i),
    {
        let next = self.pc_after(i.len() as u16);
        match i {
            Instr::Xchg => {
                let (h, l) = (self.h, self.l);
                self.h = self.d;
                self.l = self.e;
                self.d = h;
                self.e = l;
                self.pc = next;
            },
            Instr::Sphl => {
                self.sp = join_bytes(self.h, self.l);
                self.pc = next;
            },
            Instr::Di => {
                self.enable = 0;
                self.pc = next;
            },
            Instr::Ei => {
                self.enable = 1;
                self.pc = next;
            },
            Instr::Nop | Instr::Hlt | Instr::Unimplemented(_) => self.pc = next,
            _ => {},
        }
    }

    /// Loads and stores through a pair or a direct address.
    #[verifier::rlimit(100)]
    fn exec_mem(&mut self, io: &IO, i: Instr)
        requires
            operands_in_range(old(self)@, i),
            i is Stax || i is Ldax || i is Shld || i is Lhld || i is Sta || i is Lda,
        ensures
            (final(self)@, *io) == execute_spec(old(self)@, *io, i),
    {
        let next = self.pc_after(i.len() as u16);
        match i {
            Instr::Stax(p) => {
                let adr = self.read_pair(p) as usize;
                self.mem.set(adr, self.a);
                self.pc = next;
            },
            Instr::Ldax(p) => {
                let adr = self.read_pair(p) as usize;
                self.a = self.mem[adr];
                self.pc = next;
            },
            Instr::Shld => {
                let adr = self.operand_word() as usize;
                self.mem.set(adr, self.l);
                self.mem.set(adr + 1, self.h);
                self.pc = next;
            },
            Instr::Lhld => {
                let adr = self.operand_word() as usize;
                self.l = self.mem[adr];
                self.h = self.mem[adr + 1];
                self.pc = next;
            },
            Instr::Sta => {
                let adr = self.operand_word() as usize;
                self.mem.set(adr, self.a);
                self.pc = next;
            },
            Instr::Lda => {
                let adr = self.operand_word() as usize;
                self.a = self.mem[adr];
                self.pc = next;
            },
            _ => {},
        }
    }

    fn exec_lxi(&mut self, io: &IO, p: Pair)
        requires
            operands_in_range(old(self)@, Instr::Lxi(p)),
        ensures
            (final(self)@, *io) == execute_spec(old(self)@, *io, Instr::Lxi(p)),
    {
        let next = self.pc_after(Instr::Lxi(p).len() as u16);
        let w = self.operand_word();
        self.write_pair(p, w);
        self.pc = next;
    }

    fn exec_inx(&mut self, io: &IO, p: Pair)
        requires
            operands_in_range(old(self)@, Instr::Inx(p)),
        ensures
            (final(self)@, *io) == execute_spec(old(self)@, *io, Instr::Inx(p)),
    {
        let next = self.pc_after(Instr::Inx(p).len() as u16);
        self.bump_pair(p, true);
        self.pc = next;
    }

    fn exec_dcx(&mut self, io: &IO, p: Pair)
        requires
            operands_in_range(old(self)@, Instr::Dcx(p)),
        ensures
            (final(self)@, *io) == execute_spec(old(self)@, *io, Instr::Dcx(p)),
    {
        let next = self.pc_after(Instr::Dcx(p).len() as u16);
        self.bump_pair(p, false);
        self.pc = next;
    }

    fn exec_dad(&mut self, io: &IO, p: Pair)
        requires
            operands_in_range(old(self)@, Instr::Dad(p)),
        ensures
            (final(self)@, *io) == execute_spec(old(self)@, *io, Instr::Dad(p)),
    {
        let next = self.pc_after(Instr::Dad(p).len() as u16);
        self.dad(p);
        self.pc = next;
    }

    /// Moves, increments and arithmetic on 8-bit operands.
    #[verifier::rlimit(100)]
    fn exec_reg(&mut self, io: &IO, i: Instr)
        requires
            operands_in_range(old(self)@, i),
            i is Inr || i is Dcr || i is Mvi || i is Mov || i is Alu || i is AluImm,
        ensures
            (final(self)@, *io) == execute_spec(old(self)@, *io, i),
    {
        let next = self.pc_after(i.len() as u16);
        match i {
            Instr::Inr(r) => {
                self.step_reg(r, true);
                self.pc = next;
            },
            Instr::Dcr(r) => {
                self.step_reg(r, false);
                self.pc = next;
            },
            Instr::Mvi(r) => {
                let v = self.operand_byte();
                self.write_reg(r, v);
                self.pc = next;
            },
            Instr::Mov(d, r) => {
                let v = self.read_reg(r);
                self.write_reg(d, v);
                self.pc = next;
            },
            Instr::Alu(op, r) => {
                let v = self.read_reg(r);
                self.alu(op, v, r != Reg::M);
                self.pc = next;
            },
            Instr::AluImm(op) => {
                let v = self.operand_byte();
                self.alu(op, v, false);
                self.pc = next;
            },
            _ => {},
        }
    }

    /// Rotates, DAA and the carry and complement instructions.
    #[verifier::rlimit(100)]
    fn exec_acc(&mut self, io: &IO, i: Instr)
        requires
            operands_in_range(old(self)@, i),
            i is Rlc || i is Rrc || i is Ral || i is Rar || i is Daa || i is Cma || i is Stc || i is Cmc,
        ensures
            (final(self)@, *io) == execute_spec(old(self)@, *io, i),
    {
        let next = self.pc_after(i.len() as u16);
        match i {
            Instr::Rlc | Instr::Rrc | Instr::Ral | Instr::Rar | Instr::Daa | Instr::Cma
            | Instr::Stc | Instr::Cmc => {
                self.acc(i);
                self.pc = next;
            },
            _ => {},
        }
    }

    /// Runs a decoded instruction whose operands lie in memory.
    fn execute(&mut self, io: &mut IO, i: Instr)
        requires
            operands_in_range(old(self)@, i),
        ensures
            (final(self)@, *final(io)) == execute_spec(old(self)@, *old(io), i),
    {
        match i {
            Instr::Jmp | Instr::Jcc(_) | Instr::Call | Instr::Ccc(_) | Instr::Ret | Instr::Rcc(_)
            | Instr::Rst(_) | Instr::Pchl => self.exec_branch(io, i),
            Instr::Push(p) => self.exec_push(io, p),
            Instr::Pop(p) => self.exec_pop(io, p),
            Instr::Xthl => self.exec_xthl(io),
            Instr::In | Instr::Out => self.exec_port(io, i),
            Instr::Xchg | Instr::Sphl | Instr::Di | Instr::Ei | Instr::Nop | Instr::Hlt
            | Instr::Unimplemented(_) => self.exec_misc(io, i),
            Instr::Stax(_) | Instr::Ldax(_) | Instr::Shld | Instr::Lhld | Instr::Sta | Instr::Lda => self.exec_mem(io, i),
            Instr::Lxi(p) => self.exec_lxi(io, p),
            Instr::Inx(p) => self.exec_inx(io, p),
            Instr::Dcx(p) => self.exec_dcx(io, p),
            Instr::Dad(p) => self.exec_dad(io, p),
            Instr::Inr(_) | Instr::Dcr(_) | Instr::Mvi(_) | Instr::Mov(_, _) | Instr::Alu(_, _)
            | Instr::AluImm(_) => self.exec_reg(io, i),
            Instr::Rlc | Instr::Rrc | Instr::Ral | Instr::Rar | Instr::Daa | Instr::Cma | Instr::Stc
            | Instr::Cmc => self.exec_acc(io, i),
        }
    }

    /// Executes the instruction at PC. On success PC holds the address of the
    /// next instruction to run; HLT, an opcode without handler and an access
    /// outside memory are reported and leave CPU and ports unchanged.
    pub fn run_op(&mut self, io: &mut IO) -> (r: Result<(), ExecError>)
        ensures
            (r, final(self)@, *final(io)) == step_spec(old(self)@, *old(io)),
    {
        proof {
            reveal(step_spec);
        }
        let pc = self.pc as usize;
        if pc >= self.mem.len() {
            return Err(ExecError::MemoryOutOfRange);
        }
        let i = Instr::decode(self.mem[pc]);
        match i {
            Instr::Hlt => return Err(ExecError::Halted),
            Instr::Unimplemented(b) => return Err(ExecError::UnimplementedOpcode(b)),
            _ => {},
        }
        if !self.operands_ok(i) {
            return Err(ExecError::MemoryOutOfRange);
        }
        self.execute(io, i);
        Ok(())
    }

    /// Delivers interrupt `n`: pushes PC, clears the enable latch and jumps to
    /// 8·n. Fails, changing nothing, when the two stack slots lie outside memory.
    pub fn generate_interrupt(&mut self, n: u16) -> (r: Result<(), ExecError>)
        requires
            n <= 0x1fff,
        ensures
            can_push(old(self)@) ==> r == Ok::<(), ExecError>(()) && final(self)@
                == interrupt_spec(old(self)@, n),
            !can_push(old(self)@) ==> r == Err::<(), ExecError>(ExecError::MemoryOutOfRange)
                && final(self)@ == old(self)@,
    {
        if !self.stack_in_range(true) {
            return Err(ExecError::MemoryOutOfRange);
        }
        let pc = self.pc;
        self.call(pc, 8 * n);
        self.enable = 0;
        Ok(())
    }
}

} // verus!
