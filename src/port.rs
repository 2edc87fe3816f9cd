use vstd::prelude::*;

verus! {

/// One 8-bit I/O latch.
pub struct Port {
    pub reg: u8,
}

impl Port {
    pub fn new(n: u8) -> (r: Self)
        ensures
            r.reg == n,
    {
        Port { reg: n }
    }

    /// Bit `n` of the latch; 0 for `n` above 7.
    pub fn bit(&self, n: u8) -> (r: u8)
        ensures
            r == if n > 7 {
                0
            } else {
                (self.reg >> n) & 1
            },
    {
        if n > 7 {
            return 0;
        }
        (self.reg >> n) & 1
    }

    /// Sets bit `n`; does nothing for `n` above 7.
    pub fn set_bit(&mut self, n: u8)
        ensures
            final(self).reg == if n > 7 {
                old(self).reg
            } else {
                old(self).reg | (1u8 << n)
            },
    {
        if n > 7 {
            return ;
        }
        self.reg = self.reg | (1u8 << n);
    }

    /// Clears bit `n`; does nothing for `n` above 7.
    pub fn reset_bit(&mut self, n: u8)
        ensures
            final(self).reg == if n > 7 {
                old(self).reg
            } else {
                old(self).reg & !(1u8 << n)
            },
    {
        if n > 7 {
            return ;
        }
        self.reg = self.reg & !(1u8 << n);
    }
}

} // verus!
