use vstd::prelude::*;

use crate::instr::{decode_spec, Instr, StackPair};
use crate::io::IO;
use crate::model::{
    call_spec, can_pop, can_push, execute_spec, imm16, in_memory, interrupt_spec,
    operands_in_range, pc_plus, popped_sp, push_spec, ret_spec, stack_pair_get, stack_pair_set,
    stack_top, step_spec, with_pc, ExecError,
};
use crate::state::CpuModel;
use crate::utils::{high_byte, low_byte, pair_value};

verus! {

/// Splitting a joined pair gives back its two bytes, and joining the two bytes
/// of a word gives back the word.
pub proof fn lemma_join_split(hi: u8, lo: u8, w: u16)
    ensures
        high_byte(pair_value(hi, lo)) == hi,
        low_byte(pair_value(hi, lo)) == lo,
        pair_value(high_byte(w), low_byte(w)) == w,
{
}

/// PUSH of a pair followed by POP of the same pair gives the pair its old
/// value back and SP its old value.
pub proof fn lemma_push_pop(s: CpuModel, io: IO, p: StackPair)
    requires
        in_memory(s, s.pc as int),
        decode_spec(s.mem[s.pc as int]) == Instr::Push(p),
        can_push(s),
        in_memory(step_spec(s, io).1, step_spec(s, io).1.pc as int),
        decode_spec(step_spec(s, io).1.mem[step_spec(s, io).1.pc as int]) == Instr::Pop(p),
    ensures
        step_spec(s, io).0 is Ok,
        step_spec(step_spec(s, io).1, step_spec(s, io).2).0 is Ok,
        stack_pair_get(step_spec(step_spec(s, io).1, step_spec(s, io).2).1, p) == stack_pair_get(
            s,
            p,
        ),
        step_spec(step_spec(s, io).1, step_spec(s, io).2).1.sp == s.sp,
{
    let (hi, lo) = stack_pair_get(s, p);
    lemma_step_push(s, io, p);
    let s1 = with_pc(push_spec(s, hi, lo), pc_plus(s, 1));
    assert(s1.sp == s.sp - 2);
    assert(s1.mem[s1.sp as int] == lo);
    assert(s1.mem[s1.sp + 1] == hi);
    lemma_step_pop(s1, io, p);
}

/// CALL to X followed by RET at X brings PC back to the instruction after the
/// CALL, and SP to its old value.
pub proof fn lemma_call_ret(s: CpuModel, io: IO)
    requires
        in_memory(s, s.pc + 2),
        decode_spec(s.mem[s.pc as int]) == Instr::Call,
        can_push(s),
        in_memory(step_spec(s, io).1, step_spec(s, io).1.pc as int),
        decode_spec(step_spec(s, io).1.mem[step_spec(s, io).1.pc as int]) == Instr::Ret,
    ensures
        step_spec(s, io).0 is Ok,
        step_spec(s, io).1.pc == imm16(s),
        step_spec(step_spec(s, io).1, step_spec(s, io).2).0 is Ok,
        step_spec(step_spec(s, io).1, step_spec(s, io).2).1.pc == pc_plus(s, 3),
        step_spec(step_spec(s, io).1, step_spec(s, io).2).1.sp == s.sp,
{
    lemma_step_call(s, io);
    let s1 = call_spec(s, pc_plus(s, 3), imm16(s));
    lemma_join_split(0, 0, pc_plus(s, 3));
    assert(stack_top(s1) == pc_plus(s, 3));
    lemma_step_ret(s1, io);
}

proof fn lemma_step_push(s: CpuModel, io: IO, p: StackPair)
    requires
        in_memory(s, s.pc as int),
        decode_spec(s.mem[s.pc as int]) == Instr::Push(p),
        can_push(s),
    ensures
        step_spec(s, io) == (Ok::<(), ExecError>(()), with_pc(push_spec(s, stack_pair_get(s, p).0, stack_pair_get(s, p).1), pc_plus(s, 1)), io),
{
    reveal(step_spec);
    assert(operands_in_range(s, Instr::Push(p)));
}

proof fn lemma_step_pop(s: CpuModel, io: IO, p: StackPair)
    requires
        in_memory(s, s.pc as int),
        decode_spec(s.mem[s.pc as int]) == Instr::Pop(p),
        can_pop(s),
    ensures
        step_spec(s, io) == (Ok::<(), ExecError>(()), with_pc(
            CpuModel { sp: popped_sp(s), ..stack_pair_set(s, p, s.mem[s.sp + 1], s.mem[s.sp as int]) },
            pc_plus(s, 1),
        ), io),
{
    reveal(step_spec);
    assert(operands_in_range(s, Instr::Pop(p)));
}

proof fn lemma_step_call(s: CpuModel, io: IO)
    requires
        in_memory(s, s.pc + 2),
        decode_spec(s.mem[s.pc as int]) == Instr::Call,
        can_push(s),
    ensures
        step_spec(s, io) == (Ok::<(), ExecError>(()), call_spec(s, pc_plus(s, 3), imm16(s)), io),
{
    reveal(step_spec);
    assert(operands_in_range(s, Instr::Call));
    assert(execute_spec(s, io, Instr::Call) == (call_spec(s, pc_plus(s, 3), imm16(s)), io));
}

proof fn lemma_step_ret(s: CpuModel, io: IO)
    requires
        in_memory(s, s.pc as int),
        decode_spec(s.mem[s.pc as int]) == Instr::Ret,
        can_pop(s),
    ensures
        step_spec(s, io) == (Ok::<(), ExecError>(()), ret_spec(s), io),
{
    reveal(step_spec);
    assert(operands_in_range(s, Instr::Ret));
    assert(execute_spec(s, io, Instr::Ret) == (ret_spec(s), io));
}

/// RST n acts as CALL 8·n: the same registers, flags, SP and PC afterwards, and
/// the same stack layout, except that the return address it pushes is one byte
/// past it where CALL's is three bytes past it.
pub proof fn lemma_rst_is_call(s: CpuModel, t: CpuModel, io: IO, n: u8)
    requires
        in_memory(s, s.pc as int),
        decode_spec(s.mem[s.pc as int]) == Instr::Rst(n),
        can_push(s),
        t == (CpuModel { mem: t.mem, ..s }),
        t.mem.len() == s.mem.len(),
        in_memory(t, t.pc + 2),
        decode_spec(t.mem[t.pc as int]) == Instr::Call,
        imm16(t) == 8 * n,
    ensures
        step_spec(s, io).0 is Ok,
        step_spec(t, io).0 is Ok,
        step_spec(s, io).1 == call_spec(s, pc_plus(s, 1), (8 * n) as u16),
        step_spec(t, io).1 == call_spec(t, pc_plus(s, 3), (8 * n) as u16),
        (CpuModel { mem: step_spec(t, io).1.mem, ..step_spec(s, io).1 }) == step_spec(t, io).1,
        stack_top(step_spec(s, io).1) == pc_plus(s, 1),
        stack_top(step_spec(t, io).1) == pc_plus(s, 3),
{
    reveal(step_spec);
    assert(operands_in_range(s, Instr::Rst(n)));
    assert(operands_in_range(t, Instr::Call));
    lemma_join_split(0, 0, pc_plus(s, 1));
    lemma_join_split(0, 0, pc_plus(s, 3));
}

/// An interrupt delivered while the latch is set clears it and enters the
/// handler at 8·n; when the handler runs EI the latch is set again.
pub proof fn lemma_interrupt_ei(s: CpuModel, io: IO, n: u16)
    requires
        s.enable == 1,
        can_push(s),
        n <= 0x1fff,
        in_memory(interrupt_spec(s, n), (8 * n) as int),
        decode_spec(interrupt_spec(s, n).mem[(8 * n) as int]) == Instr::Ei,
    ensures
        interrupt_spec(s, n).enable == 0,
        interrupt_spec(s, n).pc == 8 * n,
        step_spec(interrupt_spec(s, n), io).0 is Ok,
        step_spec(interrupt_spec(s, n), io).1.enable == 1,
{
    reveal(step_spec);
}

} // verus!
