//! Status flags and the arithmetic engine that computes them.

use vstd::prelude::*;
use crate::registers::Width;

verus! {

/// Carry flag, bit 0 of the flags register.
pub const FLAG_CF: u64 = 0x1;

/// Parity flag, bit 2.
pub const FLAG_PF: u64 = 0x4;

/// Auxiliary-carry flag, bit 4.
pub const FLAG_AF: u64 = 0x10;

/// Zero flag, bit 6.
pub const FLAG_ZF: u64 = 0x40;

/// Sign flag, bit 7.
pub const FLAG_SF: u64 = 0x80;

/// Overflow flag, bit 11.
pub const FLAG_OF: u64 = 0x800;

/// The six status flags that arithmetic instructions define.
pub const STATUS_FLAGS: u64 = 0x8d5;

/// True when the low eight bits of `r` hold an even number of set bits.
pub open spec fn parity_even(r: u64) -> bool {
    ((r & 1) + ((r >> 1) & 1) + ((r >> 2) & 1) + ((r >> 3) & 1) + ((r >> 4) & 1) + ((r >> 5)
        & 1) + ((r >> 6) & 1) + ((r >> 7) & 1)) % 2 == 0
}

/// Flags that a result defines on its own: zero, sign (bit `bits - 1`) and parity.
pub open spec fn result_flags(r: int, bits: nat) -> u64 {
    (if r == 0 {
        FLAG_ZF
    } else {
        0
    }) | (if r >= pow2(bits) / 2 {
        FLAG_SF
    } else {
        0
    }) | (if parity_even(r as u64) {
        FLAG_PF
    } else {
        0
    })
}

/// `2^bits` for the operand widths of 8, 16, 32 and 64 bits.
pub open spec fn pow2(bits: nat) -> int {
    if bits == 8 {
        0x100
    } else if bits == 16 {
        0x1_0000
    } else if bits == 32 {
        0x1_0000_0000
    } else {
        0x1_0000_0000_0000_0000
    }
}

/// The status flags of `d + s` at a width of `bits`, for `d` and `s` below `2^bits`:
/// carry out of the top bit, signed overflow, carry out of bit 3, and the flags of
/// the wrapped result.
pub open spec fn add_flags(d: int, s: int, bits: nat) -> u64 {
    let m = pow2(bits);
    let h = m / 2;
    let r = (d + s) % m;
    (if d + s >= m {
        FLAG_CF
    } else {
        0
    }) | (if (d >= h) == (s >= h) && (r >= h) != (d >= h) {
        FLAG_OF
    } else {
        0
    }) | (if d % 16 + s % 16 >= 16 {
        FLAG_AF
    } else {
        0
    }) | result_flags(r, bits)
}

/// Parity flag of the low byte of `r`.
fn parity_flag(r: u64) -> (f: u64)
    ensures
        f == (if parity_even(r) {
            FLAG_PF
        } else {
            0
        }),
{
    let p = r ^ (r >> 4u64);
    let p = p ^ (p >> 2u64);
    let p = p ^ (p >> 1u64);
    assert((p & 1 == 0) == parity_even(r)) by (bit_vector)
        requires
            p == (((r ^ (r >> 4u64)) ^ ((r ^ (r >> 4u64)) >> 2u64)) ^ (((r ^ (r >> 4u64)) ^ ((r
                ^ (r >> 4u64)) >> 2u64)) >> 1u64)),
    ;
    if p & 1 == 0 {
        FLAG_PF
    } else {
        0
    }
}

/// Zero, sign and parity flags of a result whose sign bit is `sign_bit`.
fn flags_of_result(r: u64, sign_bit: u64, bits: Ghost<nat>) -> (f: u64)
    requires
        bits@ == 8 || bits@ == 16 || bits@ == 32 || bits@ == 64,
        sign_bit as int == pow2(bits@) / 2,
        (r as int) < pow2(bits@),
    ensures
        f == result_flags(r as int, bits@),
{
    let z: u64 = if r == 0 {
        FLAG_ZF
    } else {
        0
    };
    let sf: u64 = if r & sign_bit != 0 {
        FLAG_SF
    } else {
        0
    };
    assert((r & sign_bit != 0) == (r >= sign_bit)) by (bit_vector)
        requires
            sign_bit == 0x80 || sign_bit == 0x8000 || sign_bit == 0x8000_0000 || sign_bit
                == 0x8000_0000_0000_0000,
            r < sign_bit * 2 || sign_bit == 0x8000_0000_0000_0000,
    ;
    z | sf | parity_flag(r)
}

/// 8-bit addition: the wrapped sum and its status flags.
pub fn add_u8(d: u8, s: u8) -> (r: (u8, u64))
    ensures
        r.0 == (d + s) % 0x100,
        r.1 == add_flags(d as int, s as int, 8),
{
    let result = d.wrapping_add(s);
    let of: u64 = if (result & 0x80 != d & 0x80) && (result & 0x80 != s
        & 0x80) {
        FLAG_OF
    } else {
        0
    };
    assert(d & 0xf <= 0xf && s & 0xf <= 0xf) by (bit_vector);
    let af: u64 = if ((d & 0xf) + (s & 0xf)) & 0x10 != 0 {
        FLAG_AF
    } else {
        0
    };
    let cf: u64 = if ((d as u16) + (s as u16)) & 0x100 != 0 {
        FLAG_CF
    } else {
        0
    };
    assert(((result & 0x80 != d & 0x80) && (result & 0x80 != s & 0x80))
        == ((d >= 0x80) == (s >= 0x80) && (result >= 0x80) != (d >= 0x80)))
        by (bit_vector);
    assert(((((d & 0xf) + (s & 0xf)) as u8) & 0x10 != 0) == (d % 16 + s % 16 >= 16))
        by (bit_vector);
    assert(((((d as u16) + (s as u16)) as u16) & 0x100 != 0) == (d + s >= 0x100))
        by (bit_vector);
    let rf = flags_of_result(result as u64, 0x80, Ghost(8));
    (result, cf | of | af | rf)
}

/// 16-bit addition: the wrapped sum and its status flags.
pub fn add_u16(d: u16, s: u16) -> (r: (u16, u64))
    ensures
        r.0 == (d + s) % 0x1_0000,
        r.1 == add_flags(d as int, s as int, 16),
{
    let result = d.wrapping_add(s);
    let of: u64 = if (result & 0x8000 != d & 0x8000) && (result & 0x8000 != s
        & 0x8000) {
        FLAG_OF
    } else {
        0
    };
    assert(d & 0xf <= 0xf && s & 0xf <= 0xf) by (bit_vector);
    let af: u64 = if ((d & 0xf) + (s & 0xf)) & 0x10 != 0 {
        FLAG_AF
    } else {
        0
    };
    let cf: u64 = if ((d as u32) + (s as u32)) & 0x1_0000 != 0 {
        FLAG_CF
    } else {
        0
    };
    assert(((result & 0x8000 != d & 0x8000) && (result & 0x8000 != s & 0x8000))
        == ((d >= 0x8000) == (s >= 0x8000) && (result >= 0x8000) != (d >= 0x8000)))
        by (bit_vector);
    assert(((((d & 0xf) + (s & 0xf)) as u16) & 0x10 != 0) == (d % 16 + s % 16 >= 16))
        by (bit_vector);
    assert(((((d as u32) + (s as u32)) as u32) & 0x1_0000 != 0) == (d + s >= 0x1_0000))
        by (bit_vector);
    let rf = flags_of_result(result as u64, 0x8000, Ghost(16));
    (result, cf | of | af | rf)
}

/// 32-bit addition: the wrapped sum and its status flags.
pub fn add_u32(d: u32, s: u32) -> (r: (u32, u64))
    ensures
        r.0 == (d + s) % 0x1_0000_0000,
        r.1 == add_flags(d as int, s as int, 32),
{
    let result = d.wrapping_add(s);
    let of: u64 = if (result & 0x8000_0000 != d & 0x8000_0000)
        && (result & 0x8000_0000 != s & 0x8000_0000) {
        FLAG_OF
    } else {
        0
    };
    assert(d & 0xf <= 0xf && s & 0xf <= 0xf) by (bit_vector);
    let af: u64 = if ((d & 0xf) + (s & 0xf)) & 0x10 != 0 {
        FLAG_AF
    } else {
        0
    };
    let cf: u64 = if ((d as u64) + (s as u64)) & 0x1_0000_0000 != 0 {
        FLAG_CF
    } else {
        0
    };
    assert(((result & 0x8000_0000 != d & 0x8000_0000)
        && (result & 0x8000_0000 != s & 0x8000_0000)) == ((d >= 0x8000_0000)
        == (s >= 0x8000_0000) && (result >= 0x8000_0000)
        != (d >= 0x8000_0000))) by (bit_vector);
    assert(((((d & 0xf) + (s & 0xf)) as u32) & 0x10 != 0) == (d % 16 + s % 16 >= 16))
        by (bit_vector);
    assert(((((d as u64) + (s as u64)) as u64) & 0x1_0000_0000 != 0) == (d + s >= 0x1_0000_0000))
        by (bit_vector);
    let rf = flags_of_result(result as u64, 0x8000_0000, Ghost(32));
    (result, cf | of | af | rf)
}

/// 64-bit addition: the wrapped sum and its status flags.
pub fn add_u64(d: u64, s: u64) -> (r: (u64, u64))
    ensures
        r.0 == (d + s) % 0x1_0000_0000_0000_0000,
        r.1 == add_flags(d as int, s as int, 64),
{
    let result = d.wrapping_add(s);
    let of: u64 = if (result & 0x8000_0000_0000_0000 != d & 0x8000_0000_0000_0000)
        && (result & 0x8000_0000_0000_0000 != s & 0x8000_0000_0000_0000) {
        FLAG_OF
    } else {
        0
    };
    assert(d & 0xf <= 0xf && s & 0xf <= 0xf) by (bit_vector);
    let af: u64 = if ((d & 0xf) + (s & 0xf)) & 0x10 != 0 {
        FLAG_AF
    } else {
        0
    };
    let cf: u64 = if ((d as u128) + (s as u128)) & 0x1_0000_0000_0000_0000 != 0 {
        FLAG_CF
    } else {
        0
    };
    assert(((result & 0x8000_0000_0000_0000 != d & 0x8000_0000_0000_0000)
        && (result & 0x8000_0000_0000_0000 != s & 0x8000_0000_0000_0000))
        == ((d >= 0x8000_0000_0000_0000) == (s >= 0x8000_0000_0000_0000)
        && (result >= 0x8000_0000_0000_0000) != (d >= 0x8000_0000_0000_0000))) by (bit_vector);
    assert(((((d & 0xf) + (s & 0xf)) as u64) & 0x10 != 0) == (d % 16 + s % 16 >= 16))
        by (bit_vector);
    assert(((((d as u128) + (s as u128)) as u128) & 0x1_0000_0000_0000_0000 != 0) == (d + s
        >= 0x1_0000_0000_0000_0000)) by (bit_vector);
    let rf = flags_of_result(result as u64, 0x8000_0000_0000_0000, Ghost(64));
    (result, cf | of | af | rf)
}

/// The wrapped sum of `d` and `s` at width `w`.
pub open spec fn add_value(d: u64, s: u64, w: Width) -> u64 {
    ((d + s) % pow2(w.bits())) as u64
}

/// Addition at width `w` of two values that fit it: the wrapped sum and its flags.
pub fn add_sized(d: u64, s: u64, w: Width) -> (r: (u64, u64))
    requires
        d <= w.mask(),
        s <= w.mask(),
    ensures
        r.0 == add_value(d, s, w),
        r.1 == add_flags(d as int, s as int, w.bits()),
{
    match w {
        Width::W8 => {
            let (v, f) = add_u8(d as u8, s as u8);
            (v as u64, f)
        },
        Width::W16 => {
            let (v, f) = add_u16(d as u16, s as u16);
            (v as u64, f)
        },
        Width::W32 => {
            let (v, f) = add_u32(d as u32, s as u32);
            (v as u64, f)
        },
        Width::W64 => add_u64(d, s),
    }
}

} // verus!
