use vstd::prelude::*;

use crate::flag::{flag_on, lemma_with_flag, with_flag, FlagType};
use crate::state::{CpuModel, State};

verus! {

/// The 16-bit value of a register pair whose high byte is `hi` and low byte is `lo`.
pub open spec fn pair_value(hi: u8, lo: u8) -> u16 {
    (hi as int * 256 + lo as int) as u16
}

/// The high byte of a 16-bit word.
pub open spec fn high_byte(w: u16) -> u8 {
    (w as int / 256) as u8
}

/// The low byte of a 16-bit word.
pub open spec fn low_byte(w: u16) -> u8 {
    (w as int % 256) as u8
}

/// Joins a high and a low byte into one big-endian 16-bit word.
pub fn join_bytes(reg1: u8, reg2: u8) -> (r: u16)
    ensures
        r == pair_value(reg1, reg2),
        r as int == reg1 as int * 256 + reg2 as int,
{
    let r = ((reg1 as u16) << 8) | (reg2 as u16);
    assert(r == reg1 as int * 256 + reg2 as int) by (bit_vector)
        requires
            r == ((reg1 as u16) << 8) | (reg2 as u16),
    ;
    r
}

/// Splits a 16-bit word into its high and its low byte.
pub fn split_bytes(word: u16) -> (r: (u8, u8))
    ensures
        r.0 == high_byte(word),
        r.1 == low_byte(word),
        r.0 as int * 256 + r.1 as int == word as int,
{
    let hi = (word >> 8) as u8;
    let lo = (word & 0xff) as u8;
    assert(hi == word / 256 && lo == word % 256) by (bit_vector)
        requires
            hi == (word >> 8) as u8,
            lo == (word & 0xff) as u8,
    ;
    (hi, lo)
}

/// `cpu` with the status bit `f` set (`on`) or cleared.
pub open spec fn set_flag(cpu: CpuModel, f: FlagType, on: bool) -> CpuModel {
    CpuModel { flags: with_flag(cpu.flags, f, on), ..cpu }
}

/// Sets Z iff `reg` is zero.
pub fn check_flag_z(reg: u8, state: &mut State)
    ensures
        final(state)@ == set_flag(old(state)@, FlagType::Z, reg == 0),
        flag_on(final(state).flags.reg, FlagType::Z) <==> reg == 0,
{
    proof {
        lemma_with_flag(old(state).flags.reg, FlagType::Z, reg == 0, FlagType::Z);
    }
    if reg == 0 {
        state.flags.set(FlagType::Z);
    } else {
        state.flags.unset(FlagType::Z);
    }
}

/// Sets S iff bit 7 of `reg` is 1.
pub fn check_flag_s(reg: u8, state: &mut State)
    ensures
        final(state)@ == set_flag(old(state)@, FlagType::S, reg >= 128),
        flag_on(final(state).flags.reg, FlagType::S) <==> (reg >> 7u8) & 1 == 1,
{
    proof {
        lemma_with_flag(old(state).flags.reg, FlagType::S, reg >= 128, FlagType::S);
        assert((reg >> 7u8) & 1 == 1 <==> reg >= 128) by (bit_vector);
    }
    if reg >= 128 {
        state.flags.set(FlagType::S);
    } else {
        state.flags.unset(FlagType::S);
    }
}

/// Sets P iff bit 0 of `reg` is 0 (this machine's parity rule).
pub fn check_flag_p(reg: u8, state: &mut State)
    ensures
        final(state)@ == set_flag(old(state)@, FlagType::P, reg % 2 == 0),
{
    if reg % 2 == 0 {
        state.flags.set(FlagType::P);
    } else {
        state.flags.unset(FlagType::P);
    }
}

/// Sets CY iff the widened result `reg` of an 8-bit operation exceeds 0xff.
pub fn check_flag_cy(reg: u16, state: &mut State)
    ensures
        final(state)@ == set_flag(old(state)@, FlagType::CY, reg > 0xff),
{
    if reg > 0xff {
        state.flags.set(FlagType::CY);
    } else {
        state.flags.unset(FlagType::CY);
    }
}

/// Sets AC iff the low nibble went down from `prev` to `reg`.
pub fn check_flag_ac(prev: u8, reg: u8, state: &mut State)
    ensures
        final(state)@ == set_flag(old(state)@, FlagType::AC, prev % 16 > reg % 16),
{
    if prev % 16 > reg % 16 {
        state.flags.set(FlagType::AC);
    } else {
        state.flags.unset(FlagType::AC);
    }
}

} // verus!
