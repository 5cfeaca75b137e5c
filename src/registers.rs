use vstd::prelude::*;

verus! {

/// A condition flag of the flag register.
#[derive(Clone, Copy, Debug, PartialEq, Eq, Structural)]
pub enum Flag {
    /// Sign, bit 7.
    S,
    /// Zero, bit 6.
    Z,
    /// Parity / overflow, bit 2.
    P,
    /// Carry, bit 0.
    C,
}

/// An 8-bit register.
#[derive(Clone, Copy, Debug, PartialEq, Eq, Structural)]
pub enum Reg8 {
    A,
    B,
    C,
    D,
    E,
    H,
    L,
}

/// Which register pair serves as the index for `JP (HL)`: HL itself, or IX / IY
/// under a prefix.
#[derive(Clone, Copy, Debug, PartialEq, Eq, Structural)]
pub enum Index {
    HL,
    IX,
    IY,
}

/// The register file.
#[derive(Clone, Copy, Debug, PartialEq, Eq, Structural)]
pub struct Registers {
    pub a: u8,
    pub f: u8,
    pub b: u8,
    pub c: u8,
    pub d: u8,
    pub e: u8,
    pub h: u8,
    pub l: u8,
    pub ix: u16,
    pub iy: u16,
    pub sp: u16,
    pub pc: u16,
    pub index: Index,
    pub in_nmi: bool,
}

/// The bit of the flag register that holds `flag`.
pub open spec fn flag_mask(flag: Flag) -> u8 {
    match flag {
        Flag::S => 0x80u8,
        Flag::Z => 0x40u8,
        Flag::P => 0x04u8,
        Flag::C => 0x01u8,
    }
}

/// Whether `flag` is set in the flag register value `f`.
pub open spec fn flag_set(f: u8, flag: Flag) -> bool {
    f & flag_mask(flag) != 0
}

/// The 16-bit value whose low byte is `lo` and high byte is `hi`.
pub open spec fn word(lo: u8, hi: u8) -> u16 {
    (lo as int + 256 * hi as int) as u16
}

/// The value of an 8-bit register.
pub open spec fn reg8_of(r: Registers, id: Reg8) -> u8 {
    match id {
        Reg8::A => r.a,
        Reg8::B => r.b,
        Reg8::C => r.c,
        Reg8::D => r.d,
        Reg8::E => r.e,
        Reg8::H => r.h,
        Reg8::L => r.l,
    }
}

/// The register file with the 8-bit register `id` set to `v`.
pub open spec fn with_reg8(r: Registers, id: Reg8, v: u8) -> Registers {
    match id {
        Reg8::A => Registers { a: v, ..r },
        Reg8::B => Registers { b: v, ..r },
        Reg8::C => Registers { c: v, ..r },
        Reg8::D => Registers { d: v, ..r },
        Reg8::E => Registers { e: v, ..r },
        Reg8::H => Registers { h: v, ..r },
        Reg8::L => Registers { l: v, ..r },
    }
}

/// The value of the index register currently selected.
pub open spec fn index_of(r: Registers) -> u16 {
    match r.index {
        Index::HL => word(r.l, r.h),
        Index::IX => r.ix,
        Index::IY => r.iy,
    }
}

impl Registers {
    /// A register file with every register zero, HL as the index and no
    /// non-maskable interrupt in service.
    pub fn new() -> (r: Registers)
        ensures
            r.a == 0 && r.f == 0 && r.b == 0 && r.c == 0 && r.d == 0 && r.e == 0,
            r.h == 0 && r.l == 0 && r.ix == 0 && r.iy == 0 && r.sp == 0 && r.pc == 0,
            r.index == Index::HL,
            !r.in_nmi,
    {
        Registers {
            a: 0,
            f: 0,
            b: 0,
            c: 0,
            d: 0,
            e: 0,
            h: 0,
            l: 0,
            ix: 0,
            iy: 0,
            sp: 0,
            pc: 0,
            index: Index::HL,
            in_nmi: false,
        }
    }

    pub fn get8(&self, id: Reg8) -> (r: u8)
        ensures
            r == reg8_of(*self, id),
    {
        match id {
            Reg8::A => self.a,
            Reg8::B => self.b,
            Reg8::C => self.c,
            Reg8::D => self.d,
            Reg8::E => self.e,
            Reg8::H => self.h,
            Reg8::L => self.l,
        }
    }

    pub fn set8(&mut self, id: Reg8, v: u8)
        ensures
            *final(self) == with_reg8(*old(self), id, v),
    {
        match id {
            Reg8::A => self.a = v,
            Reg8::B => self.b = v,
            Reg8::C => self.c = v,
            Reg8::D => self.d = v,
            Reg8::E => self.e = v,
            Reg8::H => self.h = v,
            Reg8::L => self.l = v,
        }
    }

    pub fn get_flag(&self, flag: Flag) -> (r: bool)
        ensures
            r == flag_set(self.f, flag),
    {
        let mask: u8 = match flag {
            Flag::S => 0x80,
            Flag::Z => 0x40,
            Flag::P => 0x04,
            Flag::C => 0x01,
        };
        self.f & mask != 0
    }

    pub fn pc(&self) -> (r: u16)
        ensures
            r == self.pc,
    {
        self.pc
    }

    pub fn set_pc(&mut self, v: u16)
        ensures
            *final(self) == (Registers { pc: v, ..*old(self) }),
    {
        self.pc = v;
    }

    /// Marks the end of the service of a non-maskable interrupt.
    pub fn end_nmi(&mut self)
        ensures
            *final(self) == (Registers { in_nmi: false, ..*old(self) }),
    {
        self.in_nmi = false;
    }

    /// The value of the index register currently selected.
    pub fn index_value(&self) -> (r: u16)
        ensures
            r == index_of(*self),
    {
        match self.index {
            Index::HL => self.l as u16 + 256 * self.h as u16,
            Index::IX => self.ix,
            Index::IY => self.iy,
        }
    }
}

} // verus!
