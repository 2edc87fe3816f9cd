use vstd::prelude::*;

use crate::port::Port;

verus! {

/// The arcade board's ports: input latches 1 to 3, output latches 2 to 6 and
/// the 16-bit shift register behind ports 2, 3 and 4.
pub struct IO {
    pub r1: Port,
    pub r2: Port,
    pub r3: Port,
    pub w2: Port,
    pub w3: Port,
    pub w4: Port,
    pub w5: Port,
    pub w6: Port,
    pub shift: u16,
}

/// What the input collaborator and the OUT instruction do to the ports.
#[derive(Clone, Copy, Debug, PartialEq, Eq, Structural)]
pub enum Actions {
    Credit,
    P2Start,
    P1Start,
    P1Shot,
    P1Left,
    P1Right,
    Tilt,
    P2Shot,
    P2Left,
    P2Right,
    Write2(u8),
    Write4(u8),
}

/// The byte that port 3 shows: the shift register seen through a window that
/// starts `offset` bits below its top.
pub open spec fn shift_tap(shift: u16, offset: u8) -> u8
    recommends
        offset <= 8,
{
    ((shift >> ((8 - offset) as u16)) & 0xff) as u8
}

/// The shift register after a byte is written to port 4: the old contents
/// move down by 8 bits and `n` becomes the high byte.
pub open spec fn shift_in(shift: u16, n: u8) -> u16 {
    (shift as int / 256 + n as int * 256) as u16
}

/// `reg` with bit `n` set.
pub open spec fn with_bit(reg: u8, n: u8) -> u8 {
    reg | (1u8 << n)
}

/// The ports after `action`.
pub open spec fn io_op_spec(io: IO, action: Actions) -> IO {
    match action {
        Actions::Credit => IO { r1: Port { reg: with_bit(io.r1.reg, 0) }, ..io },
        Actions::P2Start => IO { r1: Port { reg: with_bit(io.r1.reg, 1) }, ..io },
        Actions::P1Start => IO { r1: Port { reg: with_bit(io.r1.reg, 2) }, ..io },
        Actions::P1Shot => IO { r1: Port { reg: with_bit(io.r1.reg, 4) }, ..io },
        Actions::P1Left => IO { r1: Port { reg: with_bit(io.r1.reg, 5) }, ..io },
        Actions::P1Right => IO { r1: Port { reg: with_bit(io.r1.reg, 6) }, ..io },
        Actions::Tilt => io,
        Actions::P2Shot => IO { r2: Port { reg: with_bit(io.r2.reg, 4) }, ..io },
        Actions::P2Left => IO { r2: Port { reg: with_bit(io.r2.reg, 5) }, ..io },
        Actions::P2Right => IO { r2: Port { reg: with_bit(io.r2.reg, 6) }, ..io },
        Actions::Write2(n) => IO {
            w2: Port { reg: n % 8 },
            r3: Port { reg: shift_tap(io.shift, n % 8) },
            ..io
        },
        Actions::Write4(n) => IO {
            w4: Port { reg: n },
            shift: shift_in(io.shift, n),
            r3: Port { reg: n },
            ..io
        },
    }
}

/// The byte that an IN instruction on `port` reads, and the ports after it.
pub open spec fn machine_in_spec(io: IO, port: u8) -> (u8, IO) {
    match port {
        1 => (io.r1.reg, io),
        2 => (io.r2.reg, io),
        3 => {
            let v = shift_tap(io.shift, io.w2.reg % 8);
            (v, IO { r3: Port { reg: v }, ..io })
        },
        _ => (io.r1.reg, io),
    }
}

/// The ports after an OUT instruction writes `a` to `port`.
pub open spec fn machine_out_spec(io: IO, port: u8, a: u8) -> IO {
    match port {
        2 => io_op_spec(io, Actions::Write2(a)),
        4 => io_op_spec(io, Actions::Write4(a)),
        _ => io,
    }
}

impl IO {
    /// The board at power-on: port 1 reads 0b10001000, port 2 reads 1, every
    /// other latch and the shift register are zero.
    pub fn new() -> (r: Self)
        ensures
            r == (IO {
                r1: Port { reg: 0b10001000 },
                r2: Port { reg: 0b00000001 },
                r3: Port { reg: 0 },
                w2: Port { reg: 0 },
                w3: Port { reg: 0 },
                w4: Port { reg: 0 },
                w5: Port { reg: 0 },
                w6: Port { reg: 0 },
                shift: 0,
            }),
    {
        Self {
            r1: Port::new(0b10001000),
            r2: Port::new(0b00000001),
            r3: Port::new(0),
            w2: Port::new(0),
            w3: Port::new(0),
            w4: Port::new(0),
            w5: Port::new(0),
            w6: Port::new(0),
            shift: 0x0000,
        }
    }

    /// Clears the player input bits: bits 0, 1, 2, 4, 5, 6 of port 1 and
    /// bits 4, 5, 6 of port 2.
    pub fn io_reset_input(&mut self)
        ensures
            *final(self) == (IO {
                r1: Port { reg: old(self).r1.reg & 0x88 },
                r2: Port { reg: old(self).r2.reg & 0x8f },
                ..*old(self)
            }),
    {
        let ghost x = self.r1.reg;
        let ghost y = self.r2.reg;
        self.r1.reset_bit(0);
        self.r1.reset_bit(1);
        self.r1.reset_bit(2);

        self.r1.reset_bit(4);
        self.r1.reset_bit(5);
        self.r1.reset_bit(6);

        self.r2.reset_bit(4);
        self.r2.reset_bit(5);
        self.r2.reset_bit(6);
        assert(((((((x & !(1u8 << 0u8)) & !(1u8 << 1u8)) & !(1u8 << 2u8)) & !(1u8 << 4u8)) & !(1u8
            << 5u8)) & !(1u8 << 6u8)) == x & 0x88) by (bit_vector);
        assert((((y & !(1u8 << 4u8)) & !(1u8 << 5u8)) & !(1u8 << 6u8)) == y & 0x8f) by (bit_vector);
    }

    /// Records an input action or a write to port 2 or 4.
    pub fn io_op(&mut self, action: Actions)
        ensures
            *final(self) == io_op_spec(*old(self), action),
    {
        match action {
            Actions::Credit => self.r1.set_bit(0),
            Actions::P2Start => self.r1.set_bit(1),
            Actions::P1Start => self.r1.set_bit(2),
            Actions::P1Shot => self.r1.set_bit(4),
            Actions::P1Left => self.r1.set_bit(5),
            Actions::P1Right => self.r1.set_bit(6),
            Actions::Tilt => {},
            Actions::P2Shot => self.r2.set_bit(4),
            Actions::P2Left => self.r2.set_bit(5),
            Actions::P2Right => self.r2.set_bit(6),
            Actions::Write2(n) => {
                let offset = n % 8;
                self.w2.reg = offset;
                self.r3.reg = ((self.shift >> ((8 - offset) as u16)) & 0xff) as u8;
            },
            Actions::Write4(n) => {
                self.w4.reg = n;
                self.shift = self.shift / 256 + (n as u16) * 256;
                self.r3.reg = n;
            },
        }
    }

    /// An IN instruction on `port`: ports 1 and 2 give their input latches,
    /// port 3 the shift-register tap, any other port falls back to port 1.
    pub fn machine_in(&mut self, port: u8) -> (r: u8)
        ensures
            (r, *final(self)) == machine_in_spec(*old(self), port),
    {
        match port {
            1 => self.r1.reg,
            2 => self.r2.reg,
            3 => {
                let offset = self.w2.reg % 8;
                self.r3.reg = ((self.shift >> ((8 - offset) as u16)) & 0xff) as u8;
                self.r3.reg
            },
            _ => self.r1.reg,
        }
    }

    /// An OUT instruction writing `a` to `port`: ports 2 and 4 act, the
    /// others ignore the write.
    pub fn machine_out(&mut self, port: u8, a: u8)
        ensures
            *final(self) == machine_out_spec(*old(self), port, a),
    {
        match port {
            2 => self.io_op(Actions::Write2(a)),
            3 => {},
            4 => self.io_op(Actions::Write4(a)),
            5 => {},
            _ => {},
        };
    }
}

} // verus!
