use vstd::prelude::*;

use crate::flag::{flag_on, flag_value, FlagType};
use crate::instr::{decode_spec, instr_len_spec, AluOp, Cond, Instr, Pair, Reg, StackPair};
use crate::io::{machine_in_spec, machine_out_spec, IO};
use crate::state::CpuModel;
use crate::utils::{high_byte, low_byte, pair_value, set_flag};

verus! {

/// How a step ends when the instruction does not complete.
#[derive(Clone, Copy, Debug, PartialEq, Eq, Structural)]
pub enum ExecError {
    /// The opcode has no handler; it carries the opcode byte.
    UnimplementedOpcode(u8),
    /// A HLT instruction was reached.
    Halted,
    /// The instruction would read or write outside the memory.
    MemoryOutOfRange,
}

/// Whether `addr` is an address of the memory.
pub open spec fn in_memory(s: CpuModel, addr: int) -> bool {
    0 <= addr < s.mem.len()
}

/// The value of HL, the pointer for `M` operands.
pub open spec fn hl(s: CpuModel) -> u16 {
    pair_value(s.h, s.l)
}

/// The 16-bit value of `p`: a big-endian register pair, or SP.
pub open spec fn pair_get(s: CpuModel, p: Pair) -> u16 {
    match p {
        Pair::BC => pair_value(s.b, s.c),
        Pair::DE => pair_value(s.d, s.e),
        Pair::HL => pair_value(s.h, s.l),
        Pair::SP => s.sp,
    }
}

/// `s` with `p` holding `w`.
pub open spec fn pair_set(s: CpuModel, p: Pair, w: u16) -> CpuModel {
    match p {
        Pair::BC => CpuModel { b: high_byte(w), c: low_byte(w), ..s },
        Pair::DE => CpuModel { d: high_byte(w), e: low_byte(w), ..s },
        Pair::HL => CpuModel { h: high_byte(w), l: low_byte(w), ..s },
        Pair::SP => CpuModel { sp: w, ..s },
    }
}

/// The 8-bit operand `r`: a register, or the memory byte at HL.
pub open spec fn reg_get(s: CpuModel, r: Reg) -> u8 {
    match r {
        Reg::B => s.b,
        Reg::C => s.c,
        Reg::D => s.d,
        Reg::E => s.e,
        Reg::H => s.h,
        Reg::L => s.l,
        Reg::M => s.mem[hl(s) as int],
        Reg::A => s.a,
    }
}

/// `s` with `v` written to operand `r`.
pub open spec fn reg_set(s: CpuModel, r: Reg, v: u8) -> CpuModel {
    match r {
        Reg::B => CpuModel { b: v, ..s },
        Reg::C => CpuModel { c: v, ..s },
        Reg::D => CpuModel { d: v, ..s },
        Reg::E => CpuModel { e: v, ..s },
        Reg::H => CpuModel { h: v, ..s },
        Reg::L => CpuModel { l: v, ..s },
        Reg::M => CpuModel { mem: s.mem.update(hl(s) as int, v), ..s },
        Reg::A => CpuModel { a: v, ..s },
    }
}

/// The high and the low byte that PUSH of `p` stores.
pub open spec fn stack_pair_get(s: CpuModel, p: StackPair) -> (u8, u8) {
    match p {
        StackPair::BC => (s.b, s.c),
        StackPair::DE => (s.d, s.e),
        StackPair::HL => (s.h, s.l),
        StackPair::PSW => (s.a, s.flags),
    }
}

/// `s` with the pair `p` loaded from the bytes `hi` and `lo`.
pub open spec fn stack_pair_set(s: CpuModel, p: StackPair, hi: u8, lo: u8) -> CpuModel {
    match p {
        StackPair::BC => CpuModel { b: hi, c: lo, ..s },
        StackPair::DE => CpuModel { d: hi, e: lo, ..s },
        StackPair::HL => CpuModel { h: hi, l: lo, ..s },
        StackPair::PSW => CpuModel { a: hi, flags: lo, ..s },
    }
}

/// The byte operand of a 2-byte instruction.
pub open spec fn imm8(s: CpuModel) -> u8 {
    s.mem[s.pc + 1]
}

/// The little-endian word operand of a 3-byte instruction.
pub open spec fn imm16(s: CpuModel) -> u16 {
    pair_value(s.mem[s.pc + 2], s.mem[s.pc + 1])
}

/// The address `n` bytes after PC, wrapping at 16 bits.
pub open spec fn pc_plus(s: CpuModel, n: int) -> u16 {
    ((s.pc + n) % 0x10000) as u16
}

/// `s` with PC set to `pc`.
pub open spec fn with_pc(s: CpuModel, pc: u16) -> CpuModel {
    CpuModel { pc, ..s }
}

/// Whether the condition holds on the status register `flags`.
pub open spec fn cond_holds(flags: u8, c: Cond) -> bool {
    match c {
        Cond::NotZero => !flag_on(flags, FlagType::Z),
        Cond::Zero => flag_on(flags, FlagType::Z),
        Cond::NoCarry => !flag_on(flags, FlagType::CY),
        Cond::Carry => flag_on(flags, FlagType::CY),
        Cond::ParityOdd => !flag_on(flags, FlagType::P),
        Cond::ParityEven => flag_on(flags, FlagType::P),
        Cond::Plus => !flag_on(flags, FlagType::S),
        Cond::Minus => flag_on(flags, FlagType::S),
    }
}

/// Z, S and P recomputed from the result byte `v`.
pub open spec fn with_zsp(s: CpuModel, v: u8) -> CpuModel {
    set_flag(set_flag(set_flag(s, FlagType::Z, v == 0), FlagType::S, v >= 128), FlagType::P, v % 2 == 0)
}

/// Whether SP-1 and SP-2 are addresses of the memory.
pub open spec fn can_push(s: CpuModel) -> bool {
    s.sp >= 2 && in_memory(s, s.sp - 1)
}

/// Whether SP and SP+1 are addresses of the memory.
pub open spec fn can_pop(s: CpuModel) -> bool {
    in_memory(s, s.sp + 1)
}

/// Stores `hi` at SP-1 and `lo` at SP-2, then lowers SP by 2.
pub open spec fn push_spec(s: CpuModel, hi: u8, lo: u8) -> CpuModel {
    CpuModel {
        mem: s.mem.update(s.sp - 1, hi).update(s.sp - 2, lo),
        sp: (s.sp - 2) as u16,
        ..s
    }
}

/// The word at the top of the stack: low byte at SP, high byte at SP+1.
pub open spec fn stack_top(s: CpuModel) -> u16 {
    pair_value(s.mem[s.sp + 1], s.mem[s.sp as int])
}

/// SP after a pop, wrapping at 16 bits.
pub open spec fn popped_sp(s: CpuModel) -> u16 {
    ((s.sp + 2) % 0x10000) as u16
}

/// The result byte and the carry of an accumulator operation on `a` and `v`,
/// with `c` (0 or 1) the carry before it.
pub open spec fn alu_result(op: AluOp, a: u8, v: u8, c: u8) -> (u8, bool) {
    match op {
        AluOp::Add => (((a + v) % 256) as u8, a + v > 255),
        AluOp::Adc => (((a + v + c) % 256) as u8, a + v + c > 255),
        AluOp::Sub => (((a - v + 256) % 256) as u8, a < v),
        AluOp::Sbb => (((a - v - c + 512) % 256) as u8, a < v + c),
        AluOp::Ana => (a & v, false),
        AluOp::Xra => (a ^ v, false),
        AluOp::Ora => (a | v, false),
        AluOp::Cmp => (((a - v + 256) % 256) as u8, a < v),
    }
}

/// An accumulator operation with operand `v`: CY from the widened result, AC
/// (only when `ac`) from the low nibble, then Z, S, P from the result byte.
/// CMP leaves A as it was.
pub open spec fn alu_spec(s: CpuModel, op: AluOp, v: u8, ac: bool) -> CpuModel {
    let (res, carry) = alu_result(op, s.a, v, flag_value(s.flags, FlagType::CY));
    let s1 = set_flag(s, FlagType::CY, carry);
    let s2 = if ac {
        set_flag(s1, FlagType::AC, s.a % 16 > res % 16)
    } else {
        s1
    };
    let s3 = if op == AluOp::Cmp {
        s2
    } else {
        CpuModel { a: res, ..s2 }
    };
    with_zsp(s3, res)
}

/// INR (`up`) or DCR on operand `r`; AC is updated for register operands only.
pub open spec fn step_reg_spec(s: CpuModel, r: Reg, up: bool) -> CpuModel {
    let v = reg_get(s, r);
    let res = if up {
        ((v + 1) % 256) as u8
    } else {
        ((v + 255) % 256) as u8
    };
    let s1 = if r != Reg::M {
        set_flag(s, FlagType::AC, v % 16 > res % 16)
    } else {
        s
    };
    with_zsp(reg_set(s1, r, res), res)
}

/// DAD: HL plus the pair, wrapping at 16 bits; CY iff the sum exceeds 0xffff.
pub open spec fn dad_spec(s: CpuModel, p: Pair) -> CpuModel {
    let sum = hl(s) + pair_get(s, p);
    pair_set(set_flag(s, FlagType::CY, sum > 0xffff), Pair::HL, (sum % 0x10000) as u16)
}

/// The rotates, DAA and the carry and complement instructions, which act on A
/// and CY alone.
pub open spec fn acc_spec(s: CpuModel, i: Instr) -> CpuModel {
    let a = s.a;
    match i {
        Instr::Rlc => CpuModel {
            a: ((a % 128) * 2 + a / 128) as u8,
            ..set_flag(s, FlagType::CY, a >= 128)
        },
        Instr::Rrc => CpuModel {
            a: (a / 2 + (a % 2) * 128) as u8,
            ..set_flag(s, FlagType::CY, a % 2 == 1)
        },
        Instr::Ral => CpuModel {
            a: ((a % 128) * 2 + flag_value(s.flags, FlagType::CY)) as u8,
            ..set_flag(s, FlagType::CY, a >= 128)
        },
        Instr::Rar => CpuModel {
            a: (a / 2 + (a / 128) * 128) as u8,
            ..set_flag(s, FlagType::CY, a % 2 == 1)
        },
        Instr::Daa => if a % 16 > 9 {
            CpuModel { a: ((a + 6) % 256) as u8, ..s }
        } else {
            s
        },
        Instr::Cma => CpuModel { a: (255 - a) as u8, ..s },
        Instr::Stc => set_flag(s, FlagType::CY, true),
        Instr::Cmc => set_flag(s, FlagType::CY, !flag_on(s.flags, FlagType::CY)),
        _ => s,
    }
}

/// Whether every byte that `i` reads or writes lies in memory: its own operand
/// bytes, the byte at HL for `M`, the addressed bytes and the stack slots it
/// uses (for conditional calls and returns, only when the branch is taken).
pub open spec fn operands_in_range(s: CpuModel, i: Instr) -> bool {
    &&& in_memory(s, s.pc + instr_len_spec(i) - 1)
    &&& match i {
        Instr::Stax(p) | Instr::Ldax(p) => in_memory(s, pair_get(s, p) as int),
        Instr::Inr(r) | Instr::Dcr(r) | Instr::Mvi(r) | Instr::Alu(_, r) => r == Reg::M
            ==> in_memory(s, hl(s) as int),
        Instr::Mov(d, r) => (d == Reg::M || r == Reg::M) ==> in_memory(s, hl(s) as int),
        Instr::Shld | Instr::Lhld => in_memory(s, imm16(s) + 1),
        Instr::Sta | Instr::Lda => in_memory(s, imm16(s) as int),
        Instr::Call | Instr::Rst(_) | Instr::Push(_) => can_push(s),
        Instr::Ccc(c) => cond_holds(s.flags, c) ==> can_push(s),
        Instr::Ret | Instr::Pop(_) | Instr::Xthl => can_pop(s),
        Instr::Rcc(c) => cond_holds(s.flags, c) ==> can_pop(s),
        _ => true,
    }
}

/// CALL to `target`: the return address `ret` goes on the stack, PC becomes `target`.
pub open spec fn call_spec(s: CpuModel, ret: u16, target: u16) -> CpuModel {
    with_pc(push_spec(s, high_byte(ret), low_byte(ret)), target)
}

/// RET: PC and SP from the stack.
pub open spec fn ret_spec(s: CpuModel) -> CpuModel {
    CpuModel { pc: stack_top(s), sp: popped_sp(s), ..s }
}

/// The effect of instruction `i` (neither HLT nor unimplemented), whose
/// operands lie in memory, on CPU and ports. Afterwards PC holds the address
/// of the next instruction: the one after `i`, or the target of a taken branch.
pub open spec fn execute_spec(s: CpuModel, io: IO, i: Instr) -> (CpuModel, IO) {
    let next = pc_plus(s, instr_len_spec(i) as int);
    match i {
        Instr::Lxi(p) => (with_pc(pair_set(s, p, imm16(s)), next), io),
        Instr::Stax(p) => (
            with_pc(CpuModel { mem: s.mem.update(pair_get(s, p) as int, s.a), ..s }, next),
            io,
        ),
        Instr::Ldax(p) => (with_pc(CpuModel { a: s.mem[pair_get(s, p) as int], ..s }, next), io),
        Instr::Inx(p) => (
            with_pc(pair_set(s, p, ((pair_get(s, p) + 1) % 0x10000) as u16), next),
            io,
        ),
        Instr::Dcx(p) => (
            with_pc(pair_set(s, p, ((pair_get(s, p) + 0xffff) % 0x10000) as u16), next),
            io,
        ),
        Instr::Dad(p) => (with_pc(dad_spec(s, p), next), io),
        Instr::Inr(r) => (with_pc(step_reg_spec(s, r, true), next), io),
        Instr::Dcr(r) => (with_pc(step_reg_spec(s, r, false), next), io),
        Instr::Mvi(r) => (with_pc(reg_set(s, r, imm8(s)), next), io),
        Instr::Mov(d, r) => (with_pc(reg_set(s, d, reg_get(s, r)), next), io),
        Instr::Alu(op, r) => (with_pc(alu_spec(s, op, reg_get(s, r), r != Reg::M), next), io),
        Instr::AluImm(op) => (with_pc(alu_spec(s, op, imm8(s), false), next), io),
        Instr::Rlc | Instr::Rrc | Instr::Ral | Instr::Rar | Instr::Daa | Instr::Cma | Instr::Stc
        | Instr::Cmc => (with_pc(acc_spec(s, i), next), io),
        Instr::Shld => {
            let adr = imm16(s) as int;
            (with_pc(CpuModel { mem: s.mem.update(adr, s.l).update(adr + 1, s.h), ..s }, next), io)
        },
        Instr::Lhld => {
            let adr = imm16(s) as int;
            (with_pc(CpuModel { l: s.mem[adr], h: s.mem[adr + 1], ..s }, next), io)
        },
        Instr::Sta => (
            with_pc(CpuModel { mem: s.mem.update(imm16(s) as int, s.a), ..s }, next),
            io,
        ),
        Instr::Lda => (with_pc(CpuModel { a: s.mem[imm16(s) as int], ..s }, next), io),
        Instr::Jmp => (with_pc(s, imm16(s)), io),
        Instr::Jcc(c) => if cond_holds(s.flags, c) {
            (with_pc(s, imm16(s)), io)
        } else {
            (with_pc(s, next), io)
        },
        Instr::Call => (call_spec(s, next, imm16(s)), io),
        Instr::Ccc(c) => if cond_holds(s.flags, c) {
            (call_spec(s, next, imm16(s)), io)
        } else {
            (with_pc(s, next), io)
        },
        Instr::Ret => (ret_spec(s), io),
        Instr::Rcc(c) => if cond_holds(s.flags, c) {
            (ret_spec(s), io)
        } else {
            (with_pc(s, next), io)
        },
        Instr::Rst(n) => (call_spec(s, next, (8 * n) as u16), io),
        Instr::Push(p) => {
            let (hi, lo) = stack_pair_get(s, p);
            (with_pc(push_spec(s, hi, lo), next), io)
        },
        Instr::Pop(p) => (
            with_pc(
                CpuModel {
                    sp: popped_sp(s),
                    ..stack_pair_set(s, p, s.mem[s.sp + 1], s.mem[s.sp as int])
                },
                next,
            ),
            io,
        ),
        Instr::In => {
            let (v, io2) = machine_in_spec(io, imm8(s));
            (with_pc(CpuModel { a: v, ..s }, next), io2)
        },
        Instr::Out => (with_pc(s, next), machine_out_spec(io, imm8(s), s.a)),
        Instr::Xthl => (
            with_pc(
                CpuModel {
                    l: s.mem[s.sp as int],
                    h: s.mem[s.sp + 1],
                    mem: s.mem.update(s.sp as int, s.l).update(s.sp + 1, s.h),
                    ..s
                },
                next,
            ),
            io,
        ),
        Instr::Xchg => (with_pc(CpuModel { h: s.d, l: s.e, d: s.h, e: s.l, ..s }, next), io),
        Instr::Pchl => (with_pc(s, hl(s)), io),
        Instr::Sphl => (with_pc(CpuModel { sp: hl(s), ..s }, next), io),
        Instr::Di => (with_pc(CpuModel { enable: 0, ..s }, next), io),
        Instr::Ei => (with_pc(CpuModel { enable: 1, ..s }, next), io),
        _ => (with_pc(s, next), io),
    }
}

/// One fetch-decode-execute step on CPU `s` and ports `io`: the outcome and
/// the CPU and ports afterwards. HLT, an unimplemented opcode and an access
/// outside memory leave both unchanged.
#[verifier::opaque]
pub open spec fn step_spec(s: CpuModel, io: IO) -> (Result<(), ExecError>, CpuModel, IO) {
    if !in_memory(s, s.pc as int) {
        (Err(ExecError::MemoryOutOfRange), s, io)
    } else {
        let i = decode_spec(s.mem[s.pc as int]);
        match i {
            Instr::Hlt => (Err(ExecError::Halted), s, io),
            Instr::Unimplemented(b) => (Err(ExecError::UnimplementedOpcode(b)), s, io),
            _ => if !operands_in_range(s, i) {
                (Err(ExecError::MemoryOutOfRange), s, io)
            } else {
                let (s2, io2) = execute_spec(s, io, i);
                (Ok(()), s2, io2)
            },
        }
    }
}

/// A hardware interrupt with vector `n`: PC goes on the stack, the enable
/// latch is cleared and PC becomes 8·n.
pub open spec fn interrupt_spec(s: CpuModel, n: u16) -> CpuModel {
    CpuModel { enable: 0, ..call_spec(s, s.pc, (8 * n) as u16) }
}

} // verus!
