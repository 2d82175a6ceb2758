//! Bit-level utilities shared by the whole core: masking lemmas, wrapping
//! arithmetic, rotations, sign extension, and the `BitOperation` trait that
//! exposes generic bit manipulation over the unsigned integer types.

use vstd::prelude::*;

verus! {

/// Masking with `&` never exceeds the mask.
pub broadcast proof fn lemma_and_mask_bound_u32(a: u32, m: u32)
    by (bit_vector)
    ensures
        #[trigger] (a & m) <= m,
{
}

/// Shifting 1 left by less than the width stays at least 1.
pub proof fn lemma_shl1_ge1_u8(w: u8)
    by (bit_vector)
    requires
        w < 8,
    ensures
        1u8 << w >= 1,
{
}

/// Shifting 1 left by less than the width stays at least 1.
pub proof fn lemma_shl1_ge1_u16(w: u16)
    by (bit_vector)
    requires
        w < 16,
    ensures
        1u16 << w >= 1,
{
}

/// Shifting 1 left by less than the width stays at least 1.
pub proof fn lemma_shl1_ge1_u32(w: u32)
    by (bit_vector)
    requires
        w < 32,
    ensures
        1u32 << w >= 1,
{
}

/// Shifting 1 left by less than the width stays at least 1.
pub proof fn lemma_shl1_ge1_u64(w: u64)
    by (bit_vector)
    requires
        w < 64,
    ensures
        1u64 << w >= 1,
{
}



/// A value of at most 15 is unchanged by masking with 0xf.
pub proof fn lemma_low_nibble_identity(c: u32)
    by (bit_vector)
    requires
        c <= 0xf,
    ensures
        c & 0xf == c,
{
}

/// The seven mode encodings are their own mode field.
pub proof fn lemma_mode_consts()
    by (bit_vector)
    ensures
        0x10u32 & 0x1f == 0x10u32,
        0x11u32 & 0x1f == 0x11u32,
        0x12u32 & 0x1f == 0x12u32,
        0x13u32 & 0x1f == 0x13u32,
        0x17u32 & 0x1f == 0x17u32,
        0x1bu32 & 0x1f == 0x1bu32,
        0x1fu32 & 0x1f == 0x1fu32,
{
}

/// Whether bit `i` of `x` is set.
pub open spec fn spec_bit32(x: u32, i: u32) -> bool
    recommends
        i < 32,
{
    (x >> i) & 1 == 1
}

/// Addition modulo 2^32, the wrap-around semantics of the 32-bit datapath.
pub open spec fn wadd(a: u32, b: u32) -> u32 {
    ((a + b) % 0x1_0000_0000) as u32
}

/// Subtraction modulo 2^32.
pub open spec fn wsub(a: u32, b: u32) -> u32 {
    ((a + 0x1_0000_0000 - b) % 0x1_0000_0000) as u32
}

/// Wrapping 32-bit addition.
pub fn wrapping_add_u32(a: u32, b: u32) -> (r: u32)
    ensures
        r == wadd(a, b),
{
    (((a as u64) + (b as u64)) % 0x1_0000_0000) as u32
}

/// Wrapping 32-bit subtraction.
pub fn wrapping_sub_u32(a: u32, b: u32) -> (r: u32)
    ensures
        r == wsub(a, b),
{
    (((a as u64) + 0x1_0000_0000 - (b as u64)) % 0x1_0000_0000) as u32
}

/// Addition modulo 2^64.
pub open spec fn wadd64(a: u64, b: u64) -> u64 {
    ((a + b) % 0x1_0000_0000_0000_0000) as u64
}

/// Multiplication modulo 2^64.
pub open spec fn wmul64(a: u64, b: u64) -> u64 {
    ((a * b) % 0x1_0000_0000_0000_0000) as u64
}

/// Wrapping 64-bit addition.
pub fn wrapping_add_u64(a: u64, b: u64) -> (r: u64)
    ensures
        r == wadd64(a, b),
{
    (((a as u128) + (b as u128)) % 0x1_0000_0000_0000_0000) as u64
}

/// Wrapping 64-bit multiplication.
pub fn wrapping_mul_u64(a: u64, b: u64) -> (r: u64)
    ensures
        r == wmul64(a, b),
{
    proof {
        assert((a as int) * (b as int) < 0x1_0000_0000_0000_0000 * 0x1_0000_0000_0000_0000)
            by (nonlinear_arith)
            requires
                a < 0x1_0000_0000_0000_0000,
                b < 0x1_0000_0000_0000_0000,
        ;
        assert((a as int) * (b as int) >= 0) by (nonlinear_arith)
            requires
                a >= 0,
                b >= 0,
        ;
    }
    (((a as u128) * (b as u128)) % 0x1_0000_0000_0000_0000) as u64
}

/// A 32-bit value sign-extended to 64 bits.
pub open spec fn spec_sign_extend64(x: u32) -> u64 {
    if spec_bit32(x, 31) {
        (x as u64) | 0xffff_ffff_0000_0000u64
    } else {
        x as u64
    }
}

/// A 32-bit value sign-extended to 64 bits.
pub fn sign_extend64(x: u32) -> (r: u64)
    ensures
        r == spec_sign_extend64(x),
{
    if (x >> 31) & 1 == 1 {
        (x as u64) | 0xffff_ffff_0000_0000
    } else {
        x as u64
    }
}

/// Right rotation of a 32-bit value; only the low five bits of the rotation
/// amount matter.
pub open spec fn spec_ror32(x: u32, n: u32) -> u32 {
    let s = (n % 32) as u32;
    if s == 0 {
        x
    } else {
        (x >> s) | (x << ((32 - s) as u32))
    }
}

/// Right rotation of a 32-bit value.
pub fn ror32(x: u32, n: u32) -> (r: u32)
    ensures
        r == spec_ror32(x, n),
{
    let s = n % 32;
    if s == 0 {
        x
    } else {
        (x >> s) | (x << (32 - s))
    }
}

/// Sign extension of the low byte to a full 32-bit word.
pub open spec fn spec_sign_extend_byte(b: u32) -> u32 {
    if (b >> 7) & 1 == 1 {
        (b & 0xff) | 0xffff_ff00
    } else {
        b & 0xff
    }
}

/// Sign extension of the low byte to a full 32-bit word.
pub fn sign_extend_byte(b: u32) -> (r: u32)
    ensures
        r == spec_sign_extend_byte(b),
{
    if (b >> 7) & 1 == 1 {
        (b & 0xff) | 0xffff_ff00
    } else {
        b & 0xff
    }
}

/// Sign extension of the low halfword to a full 32-bit word.
pub open spec fn spec_sign_extend_half(h: u32) -> u32 {
    if (h >> 15) & 1 == 1 {
        (h & 0xffff) | 0xffff_0000
    } else {
        h & 0xffff
    }
}

/// Sign extension of the low halfword to a full 32-bit word.
pub fn sign_extend_half(h: u32) -> (r: u32)
    ensures
        r == spec_sign_extend_half(h),
{
    if (h >> 15) & 1 == 1 {
        (h & 0xffff) | 0xffff_0000
    } else {
        h & 0xffff
    }
}

/// Generic bit manipulation over an unsigned integer type, with one
/// implementation per supported width. Each implementation fixes what a valid
/// bit index or bit range is and what every operation returns.
pub trait BitOperation<T>: Sized {
    /// Which bit indices the operations accept.
    spec fn bit_index_ok(&self, index: T) -> bool;

    /// Which `[end, begin]` ranges `get_range` accepts.
    spec fn range_ok(&self, end: T, begin: T) -> bool;

    /// Value with bit `index` set.
    spec fn spec_set_bit(&self, index: T) -> T;

    /// Value with bit `index` cleared.
    spec fn spec_clear_bit(&self, index: T) -> T;

    /// Value with bit `index` flipped.
    spec fn spec_flip_bit(&self, index: T) -> T;

    /// Whether bit `index` is set.
    spec fn spec_is_bit_set(&self, index: T) -> bool;

    /// The bits of the inclusive range `[end, begin]`, shifted down to bit 0.
    spec fn spec_get_range(&self, end: T, begin: T) -> T;

    fn set_bit(&self, index: T) -> (r: T)
        requires
            self.bit_index_ok(index),
        ensures
            r == self.spec_set_bit(index),
    ;

    fn clear_bit(&self, index: T) -> (r: T)
        requires
            self.bit_index_ok(index),
        ensures
            r == self.spec_clear_bit(index),
    ;

    fn flip_bit(&self, index: T) -> (r: T)
        requires
            self.bit_index_ok(index),
        ensures
            r == self.spec_flip_bit(index),
    ;

    fn is_bit_set(&self, index: T) -> (r: bool)
        requires
            self.bit_index_ok(index),
        ensures
            r == self.spec_is_bit_set(index),
    ;

    fn is_bit_clear(&self, index: T) -> (r: bool)
        requires
            self.bit_index_ok(index),
        ensures
            r == !self.spec_is_bit_set(index),
    ;

    fn get_range(&self, end: T, begin: T) -> (r: T)
        requires
            self.range_ok(end, begin),
        ensures
            r == self.spec_get_range(end, begin),
    ;
}

impl BitOperation<u32> for u32 {
    open spec fn bit_index_ok(&self, index: u32) -> bool {
        index < 32
    }

    open spec fn range_ok(&self, end: u32, begin: u32) -> bool {
        begin <= end && end < 32
    }

    open spec fn spec_set_bit(&self, index: u32) -> u32 {
        *self | (1u32 << index)
    }

    open spec fn spec_clear_bit(&self, index: u32) -> u32 {
        *self & !(1u32 << index)
    }

    open spec fn spec_flip_bit(&self, index: u32) -> u32 {
        *self ^ (1u32 << index)
    }

    open spec fn spec_is_bit_set(&self, index: u32) -> bool {
        *self & (1u32 << index) != 0
    }

    open spec fn spec_get_range(&self, end: u32, begin: u32) -> u32 {
        if begin == 0 && end == 31 {
            *self
        } else {
            (*self >> begin) & (((1u32 << ((end - begin + 1) as u32)) - 1) as u32)
        }
    }

    fn set_bit(&self, index: u32) -> u32 {
        *self | (1u32 << index)
    }

    fn clear_bit(&self, index: u32) -> u32 {
        *self & !(1u32 << index)
    }

    fn flip_bit(&self, index: u32) -> u32 {
        *self ^ (1u32 << index)
    }

    fn is_bit_set(&self, index: u32) -> bool {
        *self & (1u32 << index) != 0
    }

    fn is_bit_clear(&self, index: u32) -> bool {
        *self & (1u32 << index) == 0
    }

    fn get_range(&self, end: u32, begin: u32) -> u32 {
        if begin == 0 && end == 31 {
            *self
        } else {
            let width = end - begin + 1;
            proof {
                lemma_shl1_ge1_u32(width);
            }
            (*self >> begin) & ((1u32 << width) - 1)
        }
    }
}

impl BitOperation<u8> for u8 {
    open spec fn bit_index_ok(&self, index: u8) -> bool {
        index < 8
    }

    open spec fn range_ok(&self, end: u8, begin: u8) -> bool {
        begin <= end && end < 8
    }

    open spec fn spec_set_bit(&self, index: u8) -> u8 {
        *self | (1u8 << index)
    }

    open spec fn spec_clear_bit(&self, index: u8) -> u8 {
        *self & !(1u8 << index)
    }

    open spec fn spec_flip_bit(&self, index: u8) -> u8 {
        *self ^ (1u8 << index)
    }

    open spec fn spec_is_bit_set(&self, index: u8) -> bool {
        *self & (1u8 << index) != 0
    }

    open spec fn spec_get_range(&self, end: u8, begin: u8) -> u8 {
        if begin == 0 && end == 7 {
            *self
        } else {
            (*self >> begin) & (((1u8 << ((end - begin + 1) as u8)) - 1) as u8)
        }
    }

    fn set_bit(&self, index: u8) -> u8 {
        *self | (1u8 << index)
    }

    fn clear_bit(&self, index: u8) -> u8 {
        *self & !(1u8 << index)
    }

    fn flip_bit(&self, index: u8) -> u8 {
        *self ^ (1u8 << index)
    }

    fn is_bit_set(&self, index: u8) -> bool {
        *self & (1u8 << index) != 0
    }

    fn is_bit_clear(&self, index: u8) -> bool {
        *self & (1u8 << index) == 0
    }

    fn get_range(&self, end: u8, begin: u8) -> u8 {
        if begin == 0 && end == 7 {
            *self
        } else {
            let width = end - begin + 1;
            proof {
                lemma_shl1_ge1_u8(width);
            }
            (*self >> begin) & ((1u8 << width) - 1)
        }
    }
}

impl BitOperation<u16> for u16 {
    open spec fn bit_index_ok(&self, index: u16) -> bool {
        index < 16
    }

    open spec fn range_ok(&self, end: u16, begin: u16) -> bool {
        begin <= end && end < 16
    }

    open spec fn spec_set_bit(&self, index: u16) -> u16 {
        *self | (1u16 << index)
    }

    open spec fn spec_clear_bit(&self, index: u16) -> u16 {
        *self & !(1u16 << index)
    }

    open spec fn spec_flip_bit(&self, index: u16) -> u16 {
        *self ^ (1u16 << index)
    }

    open spec fn spec_is_bit_set(&self, index: u16) -> bool {
        *self & (1u16 << index) != 0
    }

    open spec fn spec_get_range(&self, end: u16, begin: u16) -> u16 {
        if begin == 0 && end == 15 {
            *self
        } else {
            (*self >> begin) & (((1u16 << ((end - begin + 1) as u16)) - 1) as u16)
        }
    }

    fn set_bit(&self, index: u16) -> u16 {
        *self | (1u16 << index)
    }

    fn clear_bit(&self, index: u16) -> u16 {
        *self & !(1u16 << index)
    }

    fn flip_bit(&self, index: u16) -> u16 {
        *self ^ (1u16 << index)
    }

    fn is_bit_set(&self, index: u16) -> bool {
        *self & (1u16 << index) != 0
    }

    fn is_bit_clear(&self, index: u16) -> bool {
        *self & (1u16 << index) == 0
    }

    fn get_range(&self, end: u16, begin: u16) -> u16 {
        if begin == 0 && end == 15 {
            *self
        } else {
            let width = end - begin + 1;
            proof {
                lemma_shl1_ge1_u16(width);
            }
            (*self >> begin) & ((1u16 << width) - 1)
        }
    }
}

impl BitOperation<u64> for u64 {
    open spec fn bit_index_ok(&self, index: u64) -> bool {
        index < 64
    }

    open spec fn range_ok(&self, end: u64, begin: u64) -> bool {
        begin <= end && end < 64
    }

    open spec fn spec_set_bit(&self, index: u64) -> u64 {
        *self | (1u64 << index)
    }

    open spec fn spec_clear_bit(&self, index: u64) -> u64 {
        *self & !(1u64 << index)
    }

    open spec fn spec_flip_bit(&self, index: u64) -> u64 {
        *self ^ (1u64 << index)
    }

    open spec fn spec_is_bit_set(&self, index: u64) -> bool {
        *self & (1u64 << index) != 0
    }

    open spec fn spec_get_range(&self, end: u64, begin: u64) -> u64 {
        if begin == 0 && end == 63 {
            *self
        } else {
            (*self >> begin) & (((1u64 << ((end - begin + 1) as u64)) - 1) as u64)
        }
    }

    fn set_bit(&self, index: u64) -> u64 {
        *self | (1u64 << index)
    }

    fn clear_bit(&self, index: u64) -> u64 {
        *self & !(1u64 << index)
    }

    fn flip_bit(&self, index: u64) -> u64 {
        *self ^ (1u64 << index)
    }

    fn is_bit_set(&self, index: u64) -> bool {
        *self & (1u64 << index) != 0
    }

    fn is_bit_clear(&self, index: u64) -> bool {
        *self & (1u64 << index) == 0
    }

    fn get_range(&self, end: u64, begin: u64) -> u64 {
        if begin == 0 && end == 63 {
            *self
        } else {
            let width = end - begin + 1;
            proof {
                lemma_shl1_ge1_u64(width);
            }
            (*self >> begin) & ((1u64 << width) - 1)
        }
    }
}

} // verus!
