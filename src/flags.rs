use vstd::prelude::*;

verus! {

/// Names the nine bits of the flags bank.
pub enum FlagBit {
    Carry,
    Parity,
    AuxiliaryCarry,
    Zero,
    Sign,
    Overflow,
    InterruptEnable,
    Direction,
    Trap,
}

/// The status and control bits of the CPU. Each bit is independent of the
/// others: no operation here derives one bit from another.
pub struct Flags {
    /// Set when the last operation produced a carry out of, or a borrow into, the most significant bit.
    carry: bool,
    /// Set when the low byte of the last result holds an even number of set bits.
    parity: bool,
    /// Set when the last operation carried out of, or borrowed into, the low nibble; used by decimal arithmetic.
    auxiliary_carry: bool,
    /// Set when the last result was zero.
    zero: bool,
    /// Set when the most significant bit of the last result was set.
    sign: bool,
    /// Set when the last signed result did not fit its destination.
    overflow: bool,
    /// Set when maskable external interrupts are recognised.
    interrupt_enable: bool,
    /// Set when string operations decrement the index registers.
    direction: bool,
    /// Set when the processor steps one instruction at a time, interrupting after each.
    trap: bool,
}

impl Flags {
    /// The value of one bit of the bank.
    pub closed spec fn bit(&self, f: FlagBit) -> bool {
        match f {
            FlagBit::Carry => self.carry,
            FlagBit::Parity => self.parity,
            FlagBit::AuxiliaryCarry => self.auxiliary_carry,
            FlagBit::Zero => self.zero,
            FlagBit::Sign => self.sign,
            FlagBit::Overflow => self.overflow,
            FlagBit::InterruptEnable => self.interrupt_enable,
            FlagBit::Direction => self.direction,
            FlagBit::Trap => self.trap,
        }
    }

    /// Creates a flags bank with each bit given.
    pub fn new(
        carry: bool,
        parity: bool,
        auxiliary_carry: bool,
        zero: bool,
        sign: bool,
        overflow: bool,
        interrupt_enable: bool,
        direction: bool,
        trap: bool,
    ) -> (r: Flags)
        ensures
            r.bit(FlagBit::Carry) == carry,
            r.bit(FlagBit::Parity) == parity,
            r.bit(FlagBit::AuxiliaryCarry) == auxiliary_carry,
            r.bit(FlagBit::Zero) == zero,
            r.bit(FlagBit::Sign) == sign,
            r.bit(FlagBit::Overflow) == overflow,
            r.bit(FlagBit::InterruptEnable) == interrupt_enable,
            r.bit(FlagBit::Direction) == direction,
            r.bit(FlagBit::Trap) == trap,
    {
        Flags {
            carry,
            parity,
            auxiliary_carry,
            zero,
            sign,
            overflow,
            interrupt_enable,
            direction,
            trap,
        }
    }

    /// Sets the carry bit to `value`, leaving every other bit as it was.
    pub fn set_carry(&mut self, value: bool)
        ensures
            final(self).bit(FlagBit::Carry) == value,
            forall|f: FlagBit| f != FlagBit::Carry ==> #[trigger] final(self).bit(f) == old(self).bit(f),
    {
        self.carry = value;
    }

    /// Sets the parity bit to `value`, leaving every other bit as it was.
    pub fn set_parity(&mut self, value: bool)
        ensures
            final(self).bit(FlagBit::Parity) == value,
            forall|f: FlagBit| f != FlagBit::Parity ==> #[trigger] final(self).bit(f) == old(self).bit(f),
    {
        self.parity = value;
    }

    /// Sets the auxiliary-carry bit to `value`, leaving every other bit as it was.
    pub fn set_auxiliary_carry(&mut self, value: bool)
        ensures
            final(self).bit(FlagBit::AuxiliaryCarry) == value,
            forall|f: FlagBit| f != FlagBit::AuxiliaryCarry ==> #[trigger] final(self).bit(f) == old(self).bit(f),
    {
        self.auxiliary_carry = value;
    }

    /// Sets the zero bit to `value`, leaving every other bit as it was.
    pub fn set_zero(&mut self, value: bool)
        ensures
            final(self).bit(FlagBit::Zero) == value,
            forall|f: FlagBit| f != FlagBit::Zero ==> #[trigger] final(self).bit(f) == old(self).bit(f),
    {
        self.zero = value;
    }

    /// Sets the sign bit to `value`, leaving every other bit as it was.
    pub fn set_sign(&mut self, value: bool)
        ensures
            final(self).bit(FlagBit::Sign) == value,
            forall|f: FlagBit| f != FlagBit::Sign ==> #[trigger] final(self).bit(f) == old(self).bit(f),
    {
        self.sign = value;
    }

    /// Sets the overflow bit to `value`, leaving every other bit as it was.
    pub fn set_overflow(&mut self, value: bool)
        ensures
            final(self).bit(FlagBit::Overflow) == value,
            forall|f: FlagBit| f != FlagBit::Overflow ==> #[trigger] final(self).bit(f) == old(self).bit(f),
    {
        self.overflow = value;
    }

    /// Sets the interrupt-enable bit to `value`, leaving every other bit as it was.
    pub fn set_interrupt_enable(&mut self, value: bool)
        ensures
            final(self).bit(FlagBit::InterruptEnable) == value,
            forall|f: FlagBit| f != FlagBit::InterruptEnable ==> #[trigger] final(self).bit(f) == old(self).bit(f),
    {
        self.interrupt_enable = value;
    }

    /// Sets the direction bit to `value`, leaving every other bit as it was.
    pub fn set_direction(&mut self, value: bool)
        ensures
            final(self).bit(FlagBit::Direction) == value,
            forall|f: FlagBit| f != FlagBit::Direction ==> #[trigger] final(self).bit(f) == old(self).bit(f),
    {
        self.direction = value;
    }

    /// Sets the trap bit to `value`, leaving every other bit as it was.
    pub fn set_trap(&mut self, value: bool)
        ensures
            final(self).bit(FlagBit::Trap) == value,
            forall|f: FlagBit| f != FlagBit::Trap ==> #[trigger] final(self).bit(f) == old(self).bit(f),
    {
        self.trap = value;
    }

    /// Returns the carry bit.
    pub fn get_carry(&self) -> (r: bool)
        ensures
            r == self.bit(FlagBit::Carry),
    {
        self.carry
    }

    /// Returns the parity bit.
    pub fn get_parity(&self) -> (r: bool)
        ensures
            r == self.bit(FlagBit::Parity),
    {
        self.parity
    }

    /// Returns the auxiliary-carry bit.
    pub fn get_auxiliary_carry(&self) -> (r: bool)
        ensures
            r == self.bit(FlagBit::AuxiliaryCarry),
    {
        self.auxiliary_carry
    }

    /// Returns the zero bit.
    pub fn get_zero(&self) -> (r: bool)
        ensures
            r == self.bit(FlagBit::Zero),
    {
        self.zero
    }

    /// Returns the sign bit.
    pub fn get_sign(&self) -> (r: bool)
        ensures
            r == self.bit(FlagBit::Sign),
    {
        self.sign
    }

    /// Returns the overflow bit.
    pub fn get_overflow(&self) -> (r: bool)
        ensures
            r == self.bit(FlagBit::Overflow),
    {
        self.overflow
    }

    /// Returns the interrupt-enable bit.
    pub fn get_interrupt_enable(&self) -> (r: bool)
        ensures
            r == self.bit(FlagBit::InterruptEnable),
    {
        self.interrupt_enable
    }

    /// Returns the direction bit.
    pub fn get_direction(&self) -> (r: bool)
        ensures
            r == self.bit(FlagBit::Direction),
    {
        self.direction
    }

    /// Returns the trap bit.
    pub fn get_trap(&self) -> (r: bool)
        ensures
            r == self.bit(FlagBit::Trap),
    {
        self.trap
    }
}

impl Default for Flags {
    /// A flags bank with every bit clear.
    fn default() -> (r: Flags)
        ensures
            forall|f: FlagBit| !#[trigger] r.bit(f),
    {
        Flags::new(false, false, false, false, false, false, false, false, false)
    }
}

} // verus!
