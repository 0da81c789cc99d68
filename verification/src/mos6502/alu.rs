use super::register::sign_bit;
use vstd::prelude::*;

verus! {

/// A byte read as a two's complement number.
pub open spec fn signed(v: u8) -> int {
    if v < 128 {
        v as int
    } else {
        v - 256
    }
}

/// What an addition or subtraction leaves: the byte, the carry out and
/// whether the signed result did not fit in a byte.
#[derive(Debug, Clone, Copy, PartialEq, Eq, Structural)]
pub struct AluResult {
    pub value: u8,
    pub carry: bool,
    pub overflow: bool,
}

/// What a shift or rotate leaves: the byte and the bit that fell out.
#[derive(Debug, Clone, Copy, PartialEq, Eq, Structural)]
pub struct Shifted {
    pub value: u8,
    pub carry: bool,
}

/// What a comparison finds: the sign of the difference, equality, and
/// whether the register is at least the operand.
#[derive(Debug, Clone, Copy, PartialEq, Eq, Structural)]
pub struct Compared {
    pub negative: bool,
    pub zero: bool,
    pub carry: bool,
}

/// `a + m + carry`: the sum modulo 256, the carry out of bit 7, and signed
/// overflow.
pub open spec fn adc(a: u8, m: u8, carry: bool) -> AluResult {
    let c: int = if carry {
        1
    } else {
        0
    };
    AluResult {
        value: ((a + m + c) % 256) as u8,
        carry: a + m + c > 255,
        overflow: !(-128 <= signed(a) + signed(m) + c <= 127),
    }
}

/// `a - m - (1 - carry)`: the difference modulo 256, carry set when no
/// borrow was needed, and signed overflow.
pub open spec fn sbc(a: u8, m: u8, carry: bool) -> AluResult {
    let b: int = if carry {
        0
    } else {
        1
    };
    AluResult {
        value: ((a - m - b) % 256) as u8,
        carry: a - m - b >= 0,
        overflow: !(-128 <= signed(a) - signed(m) - b <= 127),
    }
}

/// The flags that comparing register value `r` with operand `m` gives.
pub open spec fn compare(r: u8, m: u8) -> Compared {
    Compared { negative: sign_bit(r.wrapping_sub(m)), zero: r == m, carry: r >= m }
}

/// Shift left: bit 7 falls into the carry, bit 0 becomes 0.
pub open spec fn asl(v: u8) -> Shifted {
    Shifted { value: v << 1, carry: v & 0x80 != 0 }
}

/// Shift right: bit 0 falls into the carry, bit 7 becomes 0.
pub open spec fn lsr(v: u8) -> Shifted {
    Shifted { value: v >> 1, carry: v & 0x01 != 0 }
}

/// Rotate left through the carry.
pub open spec fn rol(v: u8, carry: bool) -> Shifted {
    Shifted {
        value: (v << 1) | (if carry {
            0x01u8
        } else {
            0u8
        }),
        carry: v & 0x80 != 0,
    }
}

/// Rotate right through the carry.
pub open spec fn ror(v: u8, carry: bool) -> Shifted {
    Shifted {
        value: (v >> 1) | (if carry {
            0x80u8
        } else {
            0u8
        }),
        carry: v & 0x01 != 0,
    }
}

/// Where a branch at `pc` (the address after the branch instruction) with the
/// signed displacement `offset` leads, modulo 65536.
pub open spec fn branch_target(pc: u16, offset: u8) -> u16 {
    ((pc + signed(offset)) % 65536) as u16
}

/// Whether two addresses lie in different 256-byte pages.
pub open spec fn page_crossed(a: u16, b: u16) -> bool {
    a / 256 != b / 256
}

pub fn add_with_carry(a: u8, m: u8, carry: bool) -> (r: AluResult)
    ensures
        r == adc(a, m, carry),
{
    let c: u16 = if carry {
        1
    } else {
        0
    };
    let sum: u16 = a as u16 + m as u16 + c;
    let value: u8 = (sum % 256) as u8;
    let same_sign = (a >= 128) == (m >= 128);
    let flipped = (value >= 128) != (a >= 128);
    AluResult { value, carry: sum > 255, overflow: same_sign && flipped }
}

pub fn subtract_with_borrow(a: u8, m: u8, carry: bool) -> (r: AluResult)
    ensures
        r == sbc(a, m, carry),
{
    let b: i16 = if carry {
        0
    } else {
        1
    };
    let diff: i16 = a as i16 - m as i16 - b;
    let value: u8 = if diff < 0 {
        (diff + 256) as u8
    } else {
        diff as u8
    };
    let differing = (a >= 128) != (m >= 128);
    let flipped = (value >= 128) != (a >= 128);
    AluResult { value, carry: diff >= 0, overflow: differing && flipped }
}

pub fn compare_with(r: u8, m: u8) -> (c: Compared)
    ensures
        c == compare(r, m),
{
    let d = r.wrapping_sub(m);
    Compared { negative: d & 0x80 != 0, zero: r == m, carry: r >= m }
}

pub fn shift_left(v: u8) -> (s: Shifted)
    ensures
        s == asl(v),
{
    Shifted { value: v << 1, carry: v & 0x80 != 0 }
}

pub fn shift_right(v: u8) -> (s: Shifted)
    ensures
        s == lsr(v),
{
    Shifted { value: v >> 1, carry: v & 0x01 != 0 }
}

pub fn rotate_left(v: u8, carry: bool) -> (s: Shifted)
    ensures
        s == rol(v, carry),
{
    let low: u8 = if carry {
        0x01
    } else {
        0
    };
    Shifted { value: (v << 1) | low, carry: v & 0x80 != 0 }
}

pub fn rotate_right(v: u8, carry: bool) -> (s: Shifted)
    ensures
        s == ror(v, carry),
{
    let high: u8 = if carry {
        0x80
    } else {
        0
    };
    Shifted { value: (v >> 1) | high, carry: v & 0x01 != 0 }
}

pub fn branch_to(pc: u16, offset: u8) -> (target: u16)
    ensures
        target == branch_target(pc, offset),
{
    if offset < 0x80 {
        pc.wrapping_add(offset as u16)
    } else {
        pc.wrapping_sub(256 - offset as u16)
    }
}

pub fn crosses_page(a: u16, b: u16) -> (c: bool)
    ensures
        c == page_crossed(a, b),
{
    a / 256 != b / 256
}

} // verus!
