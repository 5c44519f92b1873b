use vstd::prelude::*;

verus! {

/// The low byte of a 16-bit value: bits 0 to 7.
pub open spec fn low_byte(v: u16) -> u8 {
    (v % 256) as u8
}

/// The high byte of a 16-bit value: bits 8 to 15.
pub open spec fn high_byte(v: u16) -> u8 {
    (v / 256) as u8
}

/// The value `v` with its low byte replaced by `b`.
pub open spec fn with_low(v: u16, b: u8) -> u16 {
    (v & 0xFF00) | (b as u16)
}

/// The value `v` with its high byte replaced by `b`.
pub open spec fn with_high(v: u16, b: u8) -> u16 {
    (v & 0x00FF) | ((b as u16) << 8u16)
}

/// A 16-bit register with separate views of its low and high bytes.
pub struct Register {
    x: u16,
}

impl View for Register {
    type V = u16;

    closed spec fn view(&self) -> u16 {
        self.x
    }
}

impl Default for Register {
    fn default() -> (r: Register)
        ensures
            r@ == 0,
    {
        Register::new()
    }
}

impl Register {
    /// Creates a register holding 0x0000.
    pub fn new() -> (r: Register)
        ensures
            r@ == 0,
    {
        Register { x: 0x0000 }
    }

    /// Returns the low byte of the register.
    pub fn low(&self) -> (r: u8)
        ensures
            r == low_byte(self@),
    {
        let x: u16 = self.x;
        let r: u8 = (x & 0x00FF) as u8;
        assert(r == (x % 256) as u8) by (bit_vector)
            requires
                r == (x & 0x00FF) as u8,
        ;
        r
    }

    /// Returns the high byte of the register.
    pub fn high(&self) -> (r: u8)
        ensures
            r == high_byte(self@),
    {
        let x: u16 = self.x;
        let r: u8 = ((x & 0xFF00) >> 8u16) as u8;
        assert(r == (x / 256) as u8) by (bit_vector)
            requires
                r == ((x & 0xFF00) >> 8u16) as u8,
        ;
        r
    }

    /// Replaces the low byte, keeping the high byte.
    pub fn set_low(&mut self, value: u8)
        ensures
            final(self)@ == with_low(old(self)@, value),
    {
        self.x = (self.x & 0xFF00) | (value as u16);
    }

    /// Replaces the high byte, keeping the low byte.
    pub fn set_high(&mut self, value: u8)
        ensures
            final(self)@ == with_high(old(self)@, value),
    {
        self.x = (self.x & 0x00FF) | ((value as u16) << 8u16);
    }

    /// Replaces the whole 16-bit value.
    pub fn set(&mut self, value: u16)
        ensures
            final(self)@ == value,
    {
        self.x = value;
    }

    /// Returns the whole 16-bit value.
    pub fn get(&self) -> (r: u16)
        ensures
            r == self@,
    {
        self.x
    }
}

/// Reading the bytes of a 16-bit value: the low byte is `v & 0xFF` and the
/// high byte is `(v >> 8) & 0xFF`.
pub proof fn lemma_bytes_of_value(v: u16)
    ensures
        low_byte(v) == (v & 0xFF) as u8,
        high_byte(v) == ((v >> 8u16) & 0xFF) as u8,
{
    assert((v % 256) as u8 == (v & 0xFF) as u8) by (bit_vector);
    assert((v / 256) as u8 == ((v >> 8u16) & 0xFF) as u8) by (bit_vector);
}

/// Replacing the low byte changes bits 0 to 7 only: the low byte becomes `b`
/// and the high byte stays `(v >> 8) & 0xFF`.
pub proof fn lemma_with_low_keeps_high(v: u16, b: u8)
    ensures
        low_byte(with_low(v, b)) == b,
        high_byte(with_low(v, b)) == high_byte(v),
        with_low(v, b) & 0xFF00 == v & 0xFF00,
{
    assert(((v & 0xFF00) | (b as u16)) % 256 == b as u16) by (bit_vector);
    assert(((v & 0xFF00) | (b as u16)) / 256 == v / 256) by (bit_vector);
    assert(((v & 0xFF00) | (b as u16)) & 0xFF00 == v & 0xFF00) by (bit_vector);
}

/// Replacing the high byte changes bits 8 to 15 only: the high byte becomes
/// `b` and the low byte stays `v & 0xFF`.
pub proof fn lemma_with_high_keeps_low(v: u16, b: u8)
    ensures
        high_byte(with_high(v, b)) == b,
        low_byte(with_high(v, b)) == low_byte(v),
        with_high(v, b) & 0x00FF == v & 0x00FF,
{
    assert(((v & 0x00FF) | ((b as u16) << 8u16)) / 256 == b as u16) by (bit_vector);
    assert(((v & 0x00FF) | ((b as u16) << 8u16)) % 256 == v % 256) by (bit_vector);
    assert(((v & 0x00FF) | ((b as u16) << 8u16)) & 0x00FF == v & 0x00FF) by (bit_vector);
}

} // verus!
