use vstd::prelude::*;

verus! {

/// A machine register holding a value of type `T`.
#[derive(Debug, PartialEq, Eq, Structural)]
pub struct Register<T>(pub T);

impl<T: Copy> Clone for Register<T> {
    fn clone(&self) -> (r: Self)
        ensures
            r == *self,
    {
        *self
    }
}

impl<T: Copy> Copy for Register<T> {

}

impl<T: Copy> Register<T> {
    pub fn get(&self) -> (v: T)
        ensures
            v == self.0,
    {
        self.0
    }

    pub fn set(&mut self, v: T)
        ensures
            final(self).0 == v,
    {
        self.0 = v
    }
}

impl Register<u8> {
    /// Counts up, from 255 round to 0.
    pub fn inc(&mut self)
        ensures
            final(self).0 == (old(self).0 + 1) % 256,
            final(self).0 == old(self).0.wrapping_add(1),
    {
        self.0 = self.0.wrapping_add(1);
    }

    /// Counts down, from 0 round to 255.
    pub fn dec(&mut self)
        ensures
            final(self).0 == (old(self).0 - 1) % 256,
            final(self).0 == old(self).0.wrapping_sub(1),
    {
        self.0 = self.0.wrapping_sub(1);
    }

    pub fn is_zero(&self) -> (b: bool)
        ensures
            b == (self.0 == 0),
    {
        self.0 == 0
    }

    /// Whether bit 7, the sign of a two's complement byte, is set.
    pub fn is_neg(&self) -> (b: bool)
        ensures
            b == sign_bit(self.0),
    {
        self.0 & 0b1000_0000 != 0
    }
}

impl Register<u16> {
    /// Counts up, from 65535 round to 0.
    pub fn inc(&mut self)
        ensures
            final(self).0 == (old(self).0 + 1) % 65536,
            final(self).0 == old(self).0.wrapping_add(1),
    {
        self.0 = self.0.wrapping_add(1);
    }

    /// Counts down, from 0 round to 65535.
    pub fn dec(&mut self)
        ensures
            final(self).0 == (old(self).0 - 1) % 65536,
            final(self).0 == old(self).0.wrapping_sub(1),
    {
        self.0 = self.0.wrapping_sub(1);
    }

    /// The high byte.
    pub fn hi(&self) -> (b: u8)
        ensures
            b == high_byte(self.0),
    {
        #[verifier::truncate]
        (((self.0 & 0xff00) >> 8) as u8)
    }

    /// The low byte.
    pub fn lo(&self) -> (b: u8)
        ensures
            b == low_byte(self.0),
    {
        #[verifier::truncate]
        ((self.0 & 0x00ff) as u8)
    }

    pub fn is_zero(&self) -> (b: bool)
        ensures
            b == (self.0 == 0),
    {
        self.0 == 0
    }

    /// Whether bit 15 is set.
    pub fn is_neg(&self) -> (b: bool)
        ensures
            b == (self.0 & 0x8000 != 0),
    {
        self.0 & 0b1000_0000_0000_0000 != 0
    }
}

/// Bit 7 of a byte.
pub open spec fn sign_bit(v: u8) -> bool {
    v & 0x80 != 0
}

/// The low byte of a word.
pub open spec fn low_byte(v: u16) -> u8 {
    (v & 0x00ff) as u8
}

/// The high byte of a word.
pub open spec fn high_byte(v: u16) -> u8 {
    ((v & 0xff00) >> 8) as u8
}

/// The word with the given high and low bytes.
pub open spec fn word(hi: u8, lo: u8) -> u16 {
    ((hi as u16) << 8) | (lo as u16)
}

/// Bit 7 is the sign of a byte read as a two's complement number, and a word
/// is made of its two bytes.
pub proof fn lemma_bytes_of_word(v: u16, hi: u8, lo: u8, b: u8)
    by (bit_vector)
    ensures
        word(high_byte(v), low_byte(v)) == v,
        high_byte(word(hi, lo)) == hi,
        low_byte(word(hi, lo)) == lo,
        high_byte(v) == v / 256,
        low_byte(v) == v % 256,
        sign_bit(b) == (b >= 0x80),
{
}

/// The processor status: one bit per flag.
#[derive(Debug, Clone, Copy, PartialEq, Eq, Structural)]
pub struct StatusRegister {
    pub bits: u8,
}

impl StatusRegister {
    /// Carry.
    pub const C: u8 = 0x01;

    /// Zero.
    pub const Z: u8 = 0x02;

    /// Interrupt disable.
    pub const I: u8 = 0x04;

    /// Decimal mode.
    pub const D: u8 = 0x08;

    /// The break pair: the two bits that exist only in pushed copies.
    pub const B: u8 = 0x30;

    /// Overflow.
    pub const V: u8 = 0x40;

    /// Negative.
    pub const N: u8 = 0x80;

    /// Whether every bit of `mask` is set.
    pub open spec fn has(self, mask: u8) -> bool {
        self.bits & mask == mask
    }

    /// The status with the bits of `mask` set (`on`) or cleared.
    pub open spec fn with(self, mask: u8, on: bool) -> StatusRegister {
        if on {
            StatusRegister { bits: self.bits | mask }
        } else {
            StatusRegister { bits: self.bits & !mask }
        }
    }

    /// The status after a result `v`: Z tells whether it is zero, N holds its
    /// bit 7.
    pub open spec fn with_zn(self, v: u8) -> StatusRegister {
        self.with(Self::Z, v == 0).with(Self::N, sign_bit(v))
    }

    /// No flag set.
    pub fn empty() -> (p: StatusRegister)
        ensures
            p.bits == 0,
    {
        StatusRegister { bits: 0 }
    }

    /// The status made of the given bits; all eight stand for a flag.
    pub fn from_bits_truncate(bits: u8) -> (p: StatusRegister)
        ensures
            p.bits == bits,
    {
        StatusRegister { bits }
    }

    pub fn bits(&self) -> (b: u8)
        ensures
            b == self.bits,
    {
        self.bits
    }

    pub fn contains(&self, mask: u8) -> (b: bool)
        ensures
            b == self.has(mask),
    {
        self.bits & mask == mask
    }

    pub fn insert(&mut self, mask: u8)
        ensures
            *final(self) == old(self).with(mask, true),
    {
        self.bits = self.bits | mask;
    }

    pub fn remove(&mut self, mask: u8)
        ensures
            *final(self) == old(self).with(mask, false),
    {
        self.bits = self.bits & !mask;
    }

    pub fn set(&mut self, mask: u8, on: bool)
        ensures
            *final(self) == old(self).with(mask, on),
    {
        if on {
            self.bits = self.bits | mask;
        } else {
            self.bits = self.bits & !mask;
        }
    }

    /// Sets Z and N after a result `v`.
    pub fn set_zn(&mut self, v: u8)
        ensures
            *final(self) == old(self).with_zn(v),
    {
        self.set(Self::Z, v == 0);
        self.set(Self::N, v & 0x80 != 0);
    }
}

} // verus!
