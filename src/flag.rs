use vstd::prelude::*;

verus! {

/// The packed status register: Z in bit 7, S in bit 6, P in bit 5, CY in bit 4,
/// AC in bit 3; bits 2..0 are padding.
pub struct Flag {
    pub reg: u8,
}

/// Names of the status bits; `PAD` names the three low padding bits at once.
#[derive(Clone, Copy, Debug, PartialEq, Eq, Structural)]
pub enum FlagType {
    Z,
    S,
    P,
    CY,
    AC,
    PAD,
}

/// The bits of the status register that `f` names.
pub open spec fn flag_mask(f: FlagType) -> u8 {
    match f {
        FlagType::Z => 0x80,
        FlagType::S => 0x40,
        FlagType::P => 0x20,
        FlagType::CY => 0x10,
        FlagType::AC => 0x08,
        FlagType::PAD => 0x07,
    }
}

/// What `Flag::get` reports for `f` on the register value `reg`: the bit itself
/// (0 or 1), or the three padding bits for `PAD`.
pub open spec fn flag_value(reg: u8, f: FlagType) -> u8 {
    match f {
        FlagType::Z => (reg >> 7u8) & 1,
        FlagType::S => (reg >> 6u8) & 1,
        FlagType::P => (reg >> 5u8) & 1,
        FlagType::CY => (reg >> 4u8) & 1,
        FlagType::AC => (reg >> 3u8) & 1,
        FlagType::PAD => reg & 7,
    }
}

/// Whether the status bit `f` is set in `reg`.
pub open spec fn flag_on(reg: u8, f: FlagType) -> bool {
    flag_value(reg, f) == 1
}

/// `reg` with the bits of `f` set (`on`) or cleared.
pub open spec fn with_flag(reg: u8, f: FlagType, on: bool) -> u8 {
    if on {
        reg | flag_mask(f)
    } else {
        reg & !flag_mask(f)
    }
}

/// Setting or clearing one status bit leaves it reading as `on` and leaves
/// every other status bit as it was.
pub proof fn lemma_with_flag(reg: u8, f: FlagType, on: bool, g: FlagType)
    requires
        f != FlagType::PAD,
        g != FlagType::PAD,
    ensures
        flag_on(with_flag(reg, f, on), f) == on,
        f != g ==> flag_value(with_flag(reg, f, on), g) == flag_value(reg, g),
{
    let p: u8 = flag_pos(f);
    let q: u8 = flag_pos(g);
    lemma_mask_pos(f);
    lemma_single_bit(reg, p, p);
    lemma_single_bit(reg, p, q);
    lemma_value_pos(reg, f);
    lemma_value_pos(reg, g);
    lemma_value_pos(with_flag(reg, f, on), f);
    lemma_value_pos(with_flag(reg, f, on), g);
    if on {
        assert(with_flag(reg, f, on) == reg | (1u8 << p));
    } else {
        assert(with_flag(reg, f, on) == reg & !(1u8 << p));
    }
    if f != g {
        assert(p != q);
    }
}

spec fn flag_pos(f: FlagType) -> u8 {
    match f {
        FlagType::Z => 7,
        FlagType::S => 6,
        FlagType::P => 5,
        FlagType::CY => 4,
        FlagType::AC => 3,
        FlagType::PAD => 0,
    }
}

proof fn lemma_mask_pos(f: FlagType)
    requires
        f != FlagType::PAD,
    ensures
        flag_mask(f) == 1u8 << flag_pos(f),
{
    assert(0x80u8 == 1u8 << 7u8 && 0x40u8 == 1u8 << 6u8 && 0x20u8 == 1u8 << 5u8 && 0x10u8
        == 1u8 << 4u8 && 0x08u8 == 1u8 << 3u8) by (bit_vector);
}

proof fn lemma_value_pos(reg: u8, f: FlagType)
    requires
        f != FlagType::PAD,
    ensures
        flag_value(reg, f) == (reg >> flag_pos(f)) & 1,
{
}

proof fn lemma_single_bit(reg: u8, p: u8, q: u8)
    requires
        p < 8,
        q < 8,
    ensures
        ((reg | (1u8 << p)) >> q) & 1 == if p == q {
            1u8
        } else {
            (reg >> q) & 1
        },
        ((reg & !(1u8 << p)) >> q) & 1 == if p == q {
            0u8
        } else {
            (reg >> q) & 1
        },
{
    assert(((reg | (1u8 << p)) >> q) & 1 == if p == q {
        1u8
    } else {
        (reg >> q) & 1
    }) by (bit_vector)
        requires
            p < 8,
            q < 8,
    ;
    assert(((reg & !(1u8 << p)) >> q) & 1 == if p == q {
        0u8
    } else {
        (reg >> q) & 1
    }) by (bit_vector)
        requires
            p < 8,
            q < 8,
    ;
}

proof fn lemma_low_bits(x: u8)
    by (bit_vector)
    ensures
        x & 1 <= 1,
        x & 7 <= 7,
{
}

impl Flag {
    pub fn new() -> (r: Self)
        ensures
            r.reg == 0,
    {
        Flag { reg: 0 }
    }

    /// Reads the bit that `f` names (0 or 1), or the three padding bits for `PAD`.
    pub fn get(&self, f: FlagType) -> (r: u8)
        ensures
            r == flag_value(self.reg, f),
            f != FlagType::PAD ==> r <= 1,
            f == FlagType::PAD ==> r <= 7,
    {
        let v = self.reg;
        let r = match f {
            FlagType::Z => (v >> 7u8) & 1,
            FlagType::S => (v >> 6u8) & 1,
            FlagType::P => (v >> 5u8) & 1,
            FlagType::CY => (v >> 4u8) & 1,
            FlagType::AC => (v >> 3u8) & 1,
            FlagType::PAD => v & 7,
        };
        proof {
            lemma_low_bits(v >> 7u8);
            lemma_low_bits(v >> 6u8);
            lemma_low_bits(v >> 5u8);
            lemma_low_bits(v >> 4u8);
            lemma_low_bits(v >> 3u8);
            lemma_low_bits(v);
        }
        r
    }

    /// Sets the bits that `f` names.
    pub fn set(&mut self, f: FlagType)
        ensures
            final(self).reg == with_flag(old(self).reg, f, true),
    {
        match f {
            FlagType::Z => self.reg = self.reg | 0x80,
            FlagType::S => self.reg = self.reg | 0x40,
            FlagType::P => self.reg = self.reg | 0x20,
            FlagType::CY => self.reg = self.reg | 0x10,
            FlagType::AC => self.reg = self.reg | 0x08,
            FlagType::PAD => self.reg = self.reg | 0x07,
        }
    }

    /// Clears the bits that `f` names.
    pub fn unset(&mut self, f: FlagType)
        ensures
            final(self).reg == with_flag(old(self).reg, f, false),
    {
        match f {
            FlagType::Z => self.reg = self.reg & !0x80u8,
            FlagType::S => self.reg = self.reg & !0x40u8,
            FlagType::P => self.reg = self.reg & !0x20u8,
            FlagType::CY => self.reg = self.reg & !0x10u8,
            FlagType::AC => self.reg = self.reg & !0x08u8,
            FlagType::PAD => self.reg = self.reg & !0x07u8,
        }
    }
}

} // verus!
