//! Integers as the interface's core types carry them.

use vstd::prelude::*;

verus! {

/// The 32-bit value whose bits are those of `x`.
pub open spec fn bits_i32(x: u32) -> i32 {
    if x <= 0x7fff_ffff {
        x as i32
    } else {
        (x - 0x1_0000_0000) as i32
    }
}

/// The 64-bit value whose bits are those of `x`.
pub open spec fn bits_i64(x: u64) -> i64 {
    if x <= 0x7fff_ffff_ffff_ffff {
        x as i64
    } else {
        (x - 0x1_0000_0000_0000_0000) as i64
    }
}

/// A value that crosses the interface as a 32-bit integer.
pub trait AsI32: Sized {
    /// The integer that stands for the value.
    spec fn carried(self) -> i32;

    /// The value as the interface carries it.
    fn as_i32(self) -> (r: i32)
        ensures
            r == self.carried(),
    ;
}

/// A value that crosses the interface as a 64-bit integer.
pub trait AsI64: Sized {
    /// The integer that stands for the value.
    spec fn carried(self) -> i64;

    /// The value as the interface carries it.
    fn as_i64(self) -> (r: i64)
        ensures
            r == self.carried(),
    ;
}

/// The 32-bit integer that carries `t`.
pub fn as_i32<T: AsI32>(t: T) -> (r: i32)
    ensures
        r == t.carried(),
{
    t.as_i32()
}

/// The 64-bit integer that carries `t`.
pub fn as_i64<T: AsI64>(t: T) -> (r: i64)
    ensures
        r == t.carried(),
{
    t.as_i64()
}

impl AsI32 for i32 {
    open spec fn carried(self) -> i32 {
        self
    }

    fn as_i32(self) -> (r: i32) {
        self
    }
}

impl AsI32 for u32 {
    open spec fn carried(self) -> i32 {
        bits_i32(self)
    }

    fn as_i32(self) -> (r: i32) {
        if self <= 0x7fff_ffff {
            self as i32
        } else {
            (self as i64 - 0x1_0000_0000) as i32
        }
    }
}

impl AsI32 for u16 {
    open spec fn carried(self) -> i32 {
        self as i32
    }

    fn as_i32(self) -> (r: i32) {
        self as i32
    }
}

impl AsI64 for i64 {
    open spec fn carried(self) -> i64 {
        self
    }

    fn as_i64(self) -> (r: i64) {
        self
    }
}

impl AsI64 for u64 {
    open spec fn carried(self) -> i64 {
        bits_i64(self)
    }

    fn as_i64(self) -> (r: i64) {
        if self <= 0x7fff_ffff_ffff_ffff {
            self as i64
        } else {
            (self as i128 - 0x1_0000_0000_0000_0000) as i64
        }
    }
}

/// The integer that carries an unsigned value has the same bits.
pub proof fn lemma_bits_are_kept(x: u32, y: u64)
    ensures
        bits_i32(x) == x as i32,
        bits_i64(y) == y as i64,
        bits_i32(x) as u32 == x,
        bits_i64(y) as u64 == y,
{
    assert(x > 0x7fff_ffffu32 ==> x as i32 == (x - 0x1_0000_0000) as i32) by (bit_vector);
    assert((x as i32) as u32 == x) by (bit_vector);
    assert(y > 0x7fff_ffff_ffff_ffffu64 ==> y as i64 == (y - 0x1_0000_0000_0000_0000) as i64)
        by (bit_vector);
    assert((y as i64) as u64 == y) by (bit_vector);
}

} // verus!
