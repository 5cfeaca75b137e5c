use vstd::prelude::*;
use crate::registers::{Registers, word, index_of};

verus! {

/// Size of the address space: every 16-bit address names one byte.
pub const MEMORY_SIZE: usize = 65536;

/// `x` reduced to a 16-bit value, with two's-complement wraparound.
pub open spec fn wrap16(x: int) -> u16 {
    (x % 65536) as u16
}

/// `x` reduced to an 8-bit value, with two's-complement wraparound.
pub open spec fn wrap8(x: int) -> u8 {
    (x % 256) as u8
}

/// The byte `d` read as a two's-complement signed value.
pub open spec fn sign_extend(d: u8) -> int {
    if d < 128 {
        d as int
    } else {
        d as int - 256
    }
}

/// The byte at `addr`.
pub open spec fn mem_byte(mem: Seq<u8>, addr: u16) -> u8 {
    mem[addr as int]
}

/// The little-endian 16-bit value at `addr`; the byte after 0xffff is 0x0000.
pub open spec fn mem_word(mem: Seq<u8>, addr: u16) -> u16 {
    word(mem[addr as int], mem[wrap16(addr + 1) as int])
}

/// The low byte of `v`.
pub open spec fn low(v: u16) -> u8 {
    (v % 256) as u8
}

/// The high byte of `v`.
pub open spec fn high(v: u16) -> u8 {
    (v / 256) as u8
}

/// The machine state: registers, and the memory that holds both the program and
/// the call stack.
pub struct Environment {
    pub reg: Registers,
    pub mem: Vec<u8>,
}

/// Registers and memory after `v` is pushed: the stack pointer drops by two,
/// the high byte goes to the upper address and the low byte below it.
pub open spec fn push(r: Registers, mem: Seq<u8>, v: u16) -> (Registers, Seq<u8>) {
    let sp = wrap16(r.sp - 2);
    (
        Registers { sp: sp, ..r },
        mem.update(wrap16(r.sp - 1) as int, high(v)).update(sp as int, low(v)),
    )
}

/// Registers after a return address is popped into the program counter.
pub open spec fn pop_pc(r: Registers, mem: Seq<u8>) -> Registers {
    Registers { pc: mem_word(mem, r.sp), sp: wrap16(r.sp + 2), ..r }
}

impl Environment {
    /// Every address holds a byte.
    pub open spec fn wf(&self) -> bool {
        self.mem@.len() == MEMORY_SIZE
    }

    /// A machine with `reg` as its registers and every byte of memory zero.
    pub fn new(reg: Registers) -> (env: Environment)
        ensures
            env.wf(),
            env.reg == reg,
            forall|i: int| 0 <= i < MEMORY_SIZE ==> env.mem@[i] == 0,
    {
        let mut mem: Vec<u8> = Vec::new();
        let mut i: usize = 0;
        while i < MEMORY_SIZE
            invariant
                i <= MEMORY_SIZE,
                mem@.len() == i,
                forall|j: int| 0 <= j < i ==> mem@[j] == 0,
            decreases MEMORY_SIZE - i,
        {
            mem.push(0);
            i = i + 1;
        }
        Environment { reg, mem }
    }

    /// The byte at `addr`.
    pub fn peek(&self, addr: u16) -> (r: u8)
        requires
            self.wf(),
        ensures
            r == mem_byte(self.mem@, addr),
    {
        self.mem[addr as usize]
    }

    /// Writes `v` at `addr`.
    pub fn poke(&mut self, addr: u16, v: u8)
        requires
            old(self).wf(),
        ensures
            final(self).wf(),
            final(self).reg == old(self).reg,
            final(self).mem@ == old(self).mem@.update(addr as int, v),
    {
        self.mem.set(addr as usize, v);
    }

    /// Fetches the byte at the program counter and moves the counter past it.
    pub fn advance_pc(&mut self) -> (r: u8)
        requires
            old(self).wf(),
        ensures
            final(self).wf(),
            r == mem_byte(old(self).mem@, old(self).reg.pc),
            final(self).reg == (Registers { pc: wrap16(old(self).reg.pc + 1), ..old(self).reg }),
            final(self).mem@ == old(self).mem@,
    {
        let pc = self.reg.pc;
        let r = self.mem[pc as usize];
        self.reg.pc = pc.wrapping_add(1);
        r
    }

    /// Fetches the little-endian 16-bit value at the program counter and moves
    /// the counter past its two bytes.
    pub fn advance_immediate16(&mut self) -> (r: u16)
        requires
            old(self).wf(),
        ensures
            final(self).wf(),
            r == mem_word(old(self).mem@, old(self).reg.pc),
            final(self).reg == (Registers { pc: wrap16(old(self).reg.pc + 2), ..old(self).reg }),
            final(self).mem@ == old(self).mem@,
    {
        let lo = self.advance_pc();
        let hi = self.advance_pc();
        lo as u16 + 256 * hi as u16
    }

    /// The value of the index register currently selected.
    pub fn index_value(&self) -> (r: u16)
        ensures
            r == index_of(self.reg),
    {
        self.reg.index_value()
    }

    /// Pushes the program counter as the return address, then jumps to `address`.
    pub fn subroutine_call(&mut self, address: u16)
        requires
            old(self).wf(),
        ensures
            final(self).wf(),
            ({
                let (r, m) = push(old(self).reg, old(self).mem@, old(self).reg.pc);
                final(self).reg == (Registers { pc: address, ..r }) && final(self).mem@ == m
            }),
    {
        let pc = self.reg.pc;
        let hi_addr = self.reg.sp.wrapping_sub(1);
        self.mem.set(hi_addr as usize, (pc / 256) as u8);
        let lo_addr = self.reg.sp.wrapping_sub(2);
        self.mem.set(lo_addr as usize, (pc % 256) as u8);
        self.reg.sp = lo_addr;
        self.reg.pc = address;
    }

    /// Pops a return address from the stack into the program counter.
    pub fn subroutine_return(&mut self)
        requires
            old(self).wf(),
        ensures
            final(self).wf(),
            final(self).reg == pop_pc(old(self).reg, old(self).mem@),
            final(self).mem@ == old(self).mem@,
    {
        let sp = self.reg.sp;
        let lo = self.mem[sp as usize];
        let hi = self.mem[sp.wrapping_add(1) as usize];
        self.reg.pc = lo as u16 + 256 * hi as u16;
        self.reg.sp = sp.wrapping_add(2);
    }
}

} // verus!
