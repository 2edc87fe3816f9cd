use vstd::prelude::*;

use crate::flag::Flag;

verus! {

/// The size of the 8080 address space in bytes.
pub const MEMORY_SIZE: usize = 0x10000;

/// The stack pointer that the arcade board starts with.
pub const INITIAL_SP: u16 = 0x2400;

/// The CPU: seven 8-bit registers, stack pointer, program counter, status
/// register, interrupt-enable latch (0 or 1) and the memory it owns.
pub struct State {
    pub a: u8,
    pub b: u8,
    pub c: u8,
    pub d: u8,
    pub e: u8,
    pub h: u8,
    pub l: u8,
    pub sp: u16,
    pub pc: u16,
    pub mem: Vec<u8>,
    pub flags: Flag,
    pub enable: u8,
}

/// The mathematical value of a `State`: its fields, the status register as a
/// byte and the memory as a sequence of bytes.
pub struct CpuModel {
    pub a: u8,
    pub b: u8,
    pub c: u8,
    pub d: u8,
    pub e: u8,
    pub h: u8,
    pub l: u8,
    pub sp: u16,
    pub pc: u16,
    pub flags: u8,
    pub enable: u8,
    pub mem: Seq<u8>,
}

impl View for State {
    type V = CpuModel;

    open spec fn view(&self) -> CpuModel {
        CpuModel {
            a: self.a,
            b: self.b,
            c: self.c,
            d: self.d,
            e: self.e,
            h: self.h,
            l: self.l,
            sp: self.sp,
            pc: self.pc,
            flags: self.flags.reg,
            enable: self.enable,
            mem: self.mem@,
        }
    }
}

/// The memory image of a ROM: its bytes from address 0, cut or padded with
/// zeros to the size of the address space.
pub open spec fn memory_image(rom: Seq<u8>) -> Seq<u8> {
    Seq::new(MEMORY_SIZE as nat, |i: int| if i < rom.len() { rom[i] } else { 0u8 })
}

impl State {
    /// A CPU at reset, whose memory holds `mem` from address 0 (cut or padded
    /// with zeros to 65536 bytes); registers and flags are zero, the latch is
    /// clear, PC is 0 and SP is 0x2400.
    pub fn new(mem: Vec<u8>) -> (r: State)
        ensures
            r@ == (CpuModel {
                a: 0,
                b: 0,
                c: 0,
                d: 0,
                e: 0,
                h: 0,
                l: 0,
                sp: INITIAL_SP,
                pc: 0,
                flags: 0,
                enable: 0,
                mem: memory_image(mem@),
            }),
    {
        let mut image: Vec<u8> = Vec::with_capacity(MEMORY_SIZE);
        let mut i: usize = 0;
        while i < MEMORY_SIZE
            invariant
                i <= MEMORY_SIZE,
                image@.len() == i,
                forall|k: int| 0 <= k < i ==> image@[k] == memory_image(mem@)[k],
            decreases MEMORY_SIZE - i,
        {
            if i < mem.len() {
                image.push(mem[i]);
            } else {
                image.push(0);
            }
            i = i + 1;
        }
        assert(image@ == memory_image(mem@));
        State {
            a: 0,
            b: 0,
            c: 0,
            d: 0,
            e: 0,
            h: 0,
            l: 0,
            sp: INITIAL_SP,
            pc: 0,
            mem: image,
            flags: Flag::new(),
            enable: 0,
        }
    }
}

} // verus!
