use vstd::prelude::*;

verus! {

/// An 8-bit operand: a register, or `M`, the memory byte that HL points to.
#[derive(Clone, Copy, Debug, PartialEq, Eq, Structural)]
pub enum Reg {
    B,
    C,
    D,
    E,
    H,
    L,
    M,
    A,
}

/// A 16-bit operand of LXI, INX, DCX, DAD, STAX and LDAX.
#[derive(Clone, Copy, Debug, PartialEq, Eq, Structural)]
pub enum Pair {
    BC,
    DE,
    HL,
    SP,
}

/// A register pair that PUSH and POP move; `PSW` is A with the status register.
#[derive(Clone, Copy, Debug, PartialEq, Eq, Structural)]
pub enum StackPair {
    BC,
    DE,
    HL,
    PSW,
}

/// The condition of a conditional jump, call or return.
#[derive(Clone, Copy, Debug, PartialEq, Eq, Structural)]
pub enum Cond {
    NotZero,
    Zero,
    NoCarry,
    Carry,
    ParityOdd,
    ParityEven,
    Plus,
    Minus,
}

/// The operation of an accumulator instruction.
#[derive(Clone, Copy, Debug, PartialEq, Eq, Structural)]
pub enum AluOp {
    Add,
    Adc,
    Sub,
    Sbb,
    Ana,
    Xra,
    Ora,
    Cmp,
}

/// A decoded instruction: one variant per mnemonic, with its operands, and
/// `Unimplemented` for the opcodes that have no handler.
#[derive(Clone, Copy, Debug, PartialEq, Eq, Structural)]
pub enum Instr {
    Nop,
    Lxi(Pair),
    Stax(Pair),
    Ldax(Pair),
    Inx(Pair),
    Dcx(Pair),
    Dad(Pair),
    Inr(Reg),
    Dcr(Reg),
    Mvi(Reg),
    Mov(Reg, Reg),
    Hlt,
    Alu(AluOp, Reg),
    AluImm(AluOp),
    Rlc,
    Rrc,
    Ral,
    Rar,
    Daa,
    Cma,
    Stc,
    Cmc,
    Shld,
    Lhld,
    Sta,
    Lda,
    Jmp,
    Jcc(Cond),
    Call,
    Ccc(Cond),
    Ret,
    Rcc(Cond),
    Rst(u8),
    Push(StackPair),
    Pop(StackPair),
    In,
    Out,
    Xthl,
    Xchg,
    Pchl,
    Sphl,
    Di,
    Ei,
    Unimplemented(u8),
}

/// The operand that a 3-bit register field encodes.
pub open spec fn reg_of(k: u8) -> Reg {
    match k {
        0 => Reg::B,
        1 => Reg::C,
        2 => Reg::D,
        3 => Reg::E,
        4 => Reg::H,
        5 => Reg::L,
        6 => Reg::M,
        _ => Reg::A,
    }
}

/// The pair that a 2-bit pair field encodes.
pub open spec fn pair_of(k: u8) -> Pair {
    match k {
        0 => Pair::BC,
        1 => Pair::DE,
        2 => Pair::HL,
        _ => Pair::SP,
    }
}

/// The pair that a 2-bit pair field of PUSH or POP encodes.
pub open spec fn stack_pair_of(k: u8) -> StackPair {
    match k {
        0 => StackPair::BC,
        1 => StackPair::DE,
        2 => StackPair::HL,
        _ => StackPair::PSW,
    }
}

/// The condition that a 3-bit condition field encodes.
pub open spec fn cond_of(k: u8) -> Cond {
    match k {
        0 => Cond::NotZero,
        1 => Cond::Zero,
        2 => Cond::NoCarry,
        3 => Cond::Carry,
        4 => Cond::ParityOdd,
        5 => Cond::ParityEven,
        6 => Cond::Plus,
        _ => Cond::Minus,
    }
}

/// The operation that a 3-bit operation field encodes.
pub open spec fn alu_of(k: u8) -> AluOp {
    match k {
        0 => AluOp::Add,
        1 => AluOp::Adc,
        2 => AluOp::Sub,
        3 => AluOp::Sbb,
        4 => AluOp::Ana,
        5 => AluOp::Xra,
        6 => AluOp::Ora,
        _ => AluOp::Cmp,
    }
}

/// The 8080 encoding. An opcode is read as `xx yyy zzz`: `x` selects the
/// quarter of the table, `y` and `z` a register, pair, condition or operation.
pub open spec fn decode_spec(op: u8) -> Instr {
    let x = op / 64;
    let y = (op / 8) % 8;
    let z = op % 8;
    if x == 1 {
        if op == 0x76 {
            Instr::Hlt
        } else {
            Instr::Mov(reg_of(y), reg_of(z))
        }
    } else if x == 2 {
        Instr::Alu(alu_of(y), reg_of(z))
    } else if x == 0 {
        match z {
            0 => if y == 0 {
                Instr::Nop
            } else {
                Instr::Unimplemented(op)
            },
            1 => if y % 2 == 0 {
                Instr::Lxi(pair_of(y / 2))
            } else {
                Instr::Dad(pair_of(y / 2))
            },
            2 => match y {
                0 => Instr::Stax(Pair::BC),
                1 => Instr::Ldax(Pair::BC),
                2 => Instr::Stax(Pair::DE),
                3 => Instr::Ldax(Pair::DE),
                4 => Instr::Shld,
                5 => Instr::Lhld,
                6 => Instr::Sta,
                _ => Instr::Lda,
            },
            3 => if y % 2 == 0 {
                Instr::Inx(pair_of(y / 2))
            } else {
                Instr::Dcx(pair_of(y / 2))
            },
            4 => Instr::Inr(reg_of(y)),
            5 => Instr::Dcr(reg_of(y)),
            6 => Instr::Mvi(reg_of(y)),
            _ => match y {
                0 => Instr::Rlc,
                1 => Instr::Rrc,
                2 => Instr::Ral,
                3 => Instr::Rar,
                4 => Instr::Daa,
                5 => Instr::Cma,
                6 => Instr::Stc,
                _ => Instr::Cmc,
            },
        }
    } else {
        match z {
            0 => Instr::Rcc(cond_of(y)),
            1 => if y % 2 == 0 {
                Instr::Pop(stack_pair_of(y / 2))
            } else {
                match y {
                    1 => Instr::Ret,
                    5 => Instr::Pchl,
                    7 => Instr::Sphl,
                    _ => Instr::Unimplemented(op),
                }
            },
            2 => Instr::Jcc(cond_of(y)),
            3 => match y {
                0 => Instr::Jmp,
                2 => Instr::Out,
                3 => Instr::In,
                4 => Instr::Xthl,
                5 => Instr::Xchg,
                6 => Instr::Di,
                7 => Instr::Ei,
                _ => Instr::Unimplemented(op),
            },
            4 => Instr::Ccc(cond_of(y)),
            5 => if y % 2 == 0 {
                Instr::Push(stack_pair_of(y / 2))
            } else if y == 1 {
                Instr::Call
            } else {
                Instr::Unimplemented(op)
            },
            6 => Instr::AluImm(alu_of(y)),
            _ => Instr::Rst(y),
        }
    }
}

/// The number of bytes an instruction occupies: opcode and operands.
pub open spec fn instr_len_spec(i: Instr) -> nat {
    match i {
        Instr::Lxi(_) | Instr::Shld | Instr::Lhld | Instr::Sta | Instr::Lda | Instr::Jmp
        | Instr::Jcc(_) | Instr::Call | Instr::Ccc(_) => 3,
        Instr::Mvi(_) | Instr::AluImm(_) | Instr::In | Instr::Out => 2,
        _ => 1,
    }
}

fn reg_field(k: u8) -> (r: Reg)
    ensures
        r == reg_of(k),
{
    match k {
        0 => Reg::B,
        1 => Reg::C,
        2 => Reg::D,
        3 => Reg::E,
        4 => Reg::H,
        5 => Reg::L,
        6 => Reg::M,
        _ => Reg::A,
    }
}

fn pair_field(k: u8) -> (r: Pair)
    ensures
        r == pair_of(k),
{
    match k {
        0 => Pair::BC,
        1 => Pair::DE,
        2 => Pair::HL,
        _ => Pair::SP,
    }
}

fn stack_pair_field(k: u8) -> (r: StackPair)
    ensures
        r == stack_pair_of(k),
{
    match k {
        0 => StackPair::BC,
        1 => StackPair::DE,
        2 => StackPair::HL,
        _ => StackPair::PSW,
    }
}

fn cond_field(k: u8) -> (r: Cond)
    ensures
        r == cond_of(k),
{
    match k {
        0 => Cond::NotZero,
        1 => Cond::Zero,
        2 => Cond::NoCarry,
        3 => Cond::Carry,
        4 => Cond::ParityOdd,
        5 => Cond::ParityEven,
        6 => Cond::Plus,
        _ => Cond::Minus,
    }
}

fn alu_field(k: u8) -> (r: AluOp)
    ensures
        r == alu_of(k),
{
    match k {
        0 => AluOp::Add,
        1 => AluOp::Adc,
        2 => AluOp::Sub,
        3 => AluOp::Sbb,
        4 => AluOp::Ana,
        5 => AluOp::Xra,
        6 => AluOp::Ora,
        _ => AluOp::Cmp,
    }
}

impl Instr {
    /// Decodes one opcode byte.
    pub fn decode(op: u8) -> (r: Instr)
        ensures
            r == decode_spec(op),
    {
        let x = op / 64;
        let y = (op / 8) % 8;
        let z = op % 8;
        if x == 1 {
            if op == 0x76 {
                Instr::Hlt
            } else {
                Instr::Mov(reg_field(y), reg_field(z))
            }
        } else if x == 2 {
            Instr::Alu(alu_field(y), reg_field(z))
        } else if x == 0 {
            match z {
                0 => if y == 0 {
                    Instr::Nop
                } else {
                    Instr::Unimplemented(op)
                },
                1 => if y % 2 == 0 {
                    Instr::Lxi(pair_field(y / 2))
                } else {
                    Instr::Dad(pair_field(y / 2))
                },
                2 => match y {
                    0 => Instr::Stax(Pair::BC),
                    1 => Instr::Ldax(Pair::BC),
                    2 => Instr::Stax(Pair::DE),
                    3 => Instr::Ldax(Pair::DE),
                    4 => Instr::Shld,
                    5 => Instr::Lhld,
                    6 => Instr::Sta,
                    _ => Instr::Lda,
                },
                3 => if y % 2 == 0 {
                    Instr::Inx(pair_field(y / 2))
                } else {
                    Instr::Dcx(pair_field(y / 2))
                },
                4 => Instr::Inr(reg_field(y)),
                5 => Instr::Dcr(reg_field(y)),
                6 => Instr::Mvi(reg_field(y)),
                _ => match y {
                    0 => Instr::Rlc,
                    1 => Instr::Rrc,
                    2 => Instr::Ral,
                    3 => Instr::Rar,
                    4 => Instr::Daa,
                    5 => Instr::Cma,
                    6 => Instr::Stc,
                    _ => Instr::Cmc,
                },
            }
        } else {
            match z {
                0 => Instr::Rcc(cond_field(y)),
                1 => if y % 2 == 0 {
                    Instr::Pop(stack_pair_field(y / 2))
                } else {
                    match y {
                        1 => Instr::Ret,
                        5 => Instr::Pchl,
                        7 => Instr::Sphl,
                        _ => Instr::Unimplemented(op),
                    }
                },
                2 => Instr::Jcc(cond_field(y)),
                3 => match y {
                    0 => Instr::Jmp,
                    2 => Instr::Out,
                    3 => Instr::In,
                    4 => Instr::Xthl,
                    5 => Instr::Xchg,
                    6 => Instr::Di,
                    7 => Instr::Ei,
                    _ => Instr::Unimplemented(op),
                },
                4 => Instr::Ccc(cond_field(y)),
                5 => if y % 2 == 0 {
                    Instr::Push(stack_pair_field(y / 2))
                } else if y == 1 {
                    Instr::Call
                } else {
                    Instr::Unimplemented(op)
                },
                6 => Instr::AluImm(alu_field(y)),
                _ => Instr::Rst(y),
            }
        }
    }

    /// The number of bytes the instruction occupies (1, 2 or 3).
    pub fn len(&self) -> (r: u8)
        ensures
            r == instr_len_spec(*self),
    {
        match self {
            Instr::Lxi(_) | Instr::Shld | Instr::Lhld | Instr::Sta | Instr::Lda | Instr::Jmp
            | Instr::Jcc(_) | Instr::Call | Instr::Ccc(_) => 3,
            Instr::Mvi(_) | Instr::AluImm(_) | Instr::In | Instr::Out => 2,
            _ => 1,
        }
    }
}

} // verus!
