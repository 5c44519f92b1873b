use vstd::prelude::*;

use crate::flags::Flags;
use crate::registers::Register;

verus! {

/// The register file of the execution unit: four general-purpose registers,
/// the stack and base pointers, the source and destination indexes, and the
/// flags bank. It holds state only; it computes nothing.
pub struct ExecutionUnit {
    /// Accumulator.
    a: Register,
    /// Base register.
    b: Register,
    /// Count register.
    c: Register,
    /// Data register.
    d: Register,
    /// Stack pointer: the top of the stack.
    sp: u16,
    /// Base pointer: the base of the current stack frame.
    bp: u16,
    /// Source index of string operations.
    si: u16,
    /// Destination index of string operations.
    di: u16,
    flags: Flags,
}

/// Names the four general-purpose registers.
pub enum GeneralRegister {
    /// Accumulator.
    A,
    /// Base register.
    B,
    /// Count register.
    C,
    /// Data register.
    D,
}

/// Abstract state of the index and pointer registers.
pub struct PointerRegisters {
    pub sp: u16,
    pub bp: u16,
    pub si: u16,
    pub di: u16,
}

impl ExecutionUnit {
    /// The stack pointer, base pointer, source index and destination index.
    pub closed spec fn pointers(&self) -> PointerRegisters {
        PointerRegisters { sp: self.sp, bp: self.bp, si: self.si, di: self.di }
    }

    /// The value of a general-purpose register.
    pub closed spec fn general(&self, which: GeneralRegister) -> u16 {
        match which {
            GeneralRegister::A => self.a@,
            GeneralRegister::B => self.b@,
            GeneralRegister::C => self.c@,
            GeneralRegister::D => self.d@,
        }
    }

    /// The flags bank.
    pub closed spec fn flags_bank(&self) -> Flags {
        self.flags
    }

    /// The general-purpose registers of `self` and `other` hold the same values.
    pub open spec fn same_general(&self, other: &ExecutionUnit) -> bool {
        forall|w: GeneralRegister| #[trigger] self.general(w) == other.general(w)
    }

    /// Creates a register file from its parts.
    pub fn new(
        a: Register,
        b: Register,
        c: Register,
        d: Register,
        sp: u16,
        bp: u16,
        si: u16,
        di: u16,
        flags: Flags,
    ) -> (r: ExecutionUnit)
        ensures
            r.general(GeneralRegister::A) == a@,
            r.general(GeneralRegister::B) == b@,
            r.general(GeneralRegister::C) == c@,
            r.general(GeneralRegister::D) == d@,
            r.pointers() == (PointerRegisters { sp, bp, si, di }),
            r.flags_bank() == flags,
    {
        ExecutionUnit { a, b, c, d, sp, bp, si, di, flags }
    }

    pub fn set_sp(&mut self, value: u16)
        ensures
            final(self).pointers() == (PointerRegisters { sp: value, ..old(self).pointers() }),
            final(self).same_general(old(self)),
            final(self).flags_bank() == old(self).flags_bank(),
    {
        self.sp = value;
    }

    pub fn set_bp(&mut self, value: u16)
        ensures
            final(self).pointers() == (PointerRegisters { bp: value, ..old(self).pointers() }),
            final(self).same_general(old(self)),
            final(self).flags_bank() == old(self).flags_bank(),
    {
        self.bp = value;
    }

    pub fn set_si(&mut self, value: u16)
        ensures
            final(self).pointers() == (PointerRegisters { si: value, ..old(self).pointers() }),
            final(self).same_general(old(self)),
            final(self).flags_bank() == old(self).flags_bank(),
    {
        self.si = value;
    }

    pub fn set_di(&mut self, value: u16)
        ensures
            final(self).pointers() == (PointerRegisters { di: value, ..old(self).pointers() }),
            final(self).same_general(old(self)),
            final(self).flags_bank() == old(self).flags_bank(),
    {
        self.di = value;
    }

    pub fn get_sp(&self) -> (r: u16)
        ensures
            r == self.pointers().sp,
    {
        self.sp
    }

    pub fn get_bp(&self) -> (r: u16)
        ensures
            r == self.pointers().bp,
    {
        self.bp
    }

    pub fn get_si(&self) -> (r: u16)
        ensures
            r == self.pointers().si,
    {
        self.si
    }

    pub fn get_di(&self) -> (r: u16)
        ensures
            r == self.pointers().di,
    {
        self.di
    }
    /// The flags bank, to read.
    pub fn get_flags(&self) -> (r: &Flags)
        ensures
            *r == self.flags_bank(),
    {
        &self.flags
    }

    /// The flags bank, to change; nothing else changes.
    pub fn flags_mut(&mut self) -> (r: &mut Flags)
        ensures
            *r == old(self).flags_bank(),
            final(self).flags_bank() == *final(r),
            final(self).same_general(old(self)),
            final(self).pointers() == old(self).pointers(),
    {
        &mut self.flags
    }

    /// A general-purpose register, to read.
    pub fn register(&self, which: GeneralRegister) -> (r: &Register)
        ensures
            r@ == self.general(which),
    {
        match which {
            GeneralRegister::A => &self.a,
            GeneralRegister::B => &self.b,
            GeneralRegister::C => &self.c,
            GeneralRegister::D => &self.d,
        }
    }

    /// A general-purpose register, to change; nothing else changes.
    pub fn register_mut(&mut self, which: GeneralRegister) -> (r: &mut Register)
        ensures
            r@ == old(self).general(which),
            final(self).general(which) == final(r)@,
            forall|w: GeneralRegister|
                w != which ==> #[trigger] final(self).general(w) == old(self).general(w),
            final(self).pointers() == old(self).pointers(),
            final(self).flags_bank() == old(self).flags_bank(),
    {
        match which {
            GeneralRegister::A => &mut self.a,
            GeneralRegister::B => &mut self.b,
            GeneralRegister::C => &mut self.c,
            GeneralRegister::D => &mut self.d,
        }
    }
}

} // verus!
