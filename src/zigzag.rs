//! The zigzag map between signed values and the unsigned magnitudes that encode them:
//! `0, -1, 1, -2, 2, ...` go to `0, 1, 2, 3, 4, ...`.
use vstd::prelude::*;

verus! {

/// The magnitude that stands for the signed value `s`.
pub open spec fn zigzag(s: int) -> nat {
    if s >= 0 {
        (2 * s) as nat
    } else {
        (-2 * s - 1) as nat
    }
}

/// The signed value that the magnitude `u` stands for.
pub open spec fn unzigzag(u: nat) -> int {
    if u % 2 == 0 {
        (u / 2) as int
    } else {
        -(u / 2) - 1
    }
}

/// Zigzag-maps a 8-bit signed value.
pub fn varint_to_varuint_8(v: i8) -> (r: u8)
    ensures
        r == zigzag(v as int),
{
    assert(((v << 1) ^ (v >> 7)) as u8 == (if v >= 0 { 2 * v } else { -2 * v - 1 })) by (bit_vector);
    ((v << 1) ^ (v >> 7)) as u8
}

/// Maps a magnitude back to the 8-bit signed value it stands for.
pub fn varuint_to_varint_8(v: u8) -> (r: i8)
    ensures
        r == unzigzag(v as nat),
{
    assert(v >> 1 <= 0x7f && v & 1 <= 1) by (bit_vector);
    let h = (v >> 1) as i8;
    let m = -((v & 1) as i8);
    assert(h == v / 2 && v & 1 == v % 2) by (bit_vector)
        requires
            h == (v >> 1) as i8,
    ;
    assert(h ^ m == (if m == 0 { h as int } else { -h - 1 })) by (bit_vector)
        requires
            m == 0 || m == -1,
    ;
    h ^ m
}

/// Zigzag-maps a 16-bit signed value.
pub fn varint_to_varuint_16(v: i16) -> (r: u16)
    ensures
        r == zigzag(v as int),
{
    assert(((v << 1) ^ (v >> 15)) as u16 == (if v >= 0 { 2 * v } else { -2 * v - 1 })) by (bit_vector);
    ((v << 1) ^ (v >> 15)) as u16
}

/// Maps a magnitude back to the 16-bit signed value it stands for.
pub fn varuint_to_varint_16(v: u16) -> (r: i16)
    ensures
        r == unzigzag(v as nat),
{
    assert(v >> 1 <= 0x7fff && v & 1 <= 1) by (bit_vector);
    let h = (v >> 1) as i16;
    let m = -((v & 1) as i16);
    assert(h == v / 2 && v & 1 == v % 2) by (bit_vector)
        requires
            h == (v >> 1) as i16,
    ;
    assert(h ^ m == (if m == 0 { h as int } else { -h - 1 })) by (bit_vector)
        requires
            m == 0 || m == -1,
    ;
    h ^ m
}

/// Zigzag-maps a 32-bit signed value.
pub fn varint_to_varuint_32(v: i32) -> (r: u32)
    ensures
        r == zigzag(v as int),
{
    assert(((v << 1) ^ (v >> 31)) as u32 == (if v >= 0 { 2 * v } else { -2 * v - 1 })) by (bit_vector);
    ((v << 1) ^ (v >> 31)) as u32
}

/// Maps a magnitude back to the 32-bit signed value it stands for.
pub fn varuint_to_varint_32(v: u32) -> (r: i32)
    ensures
        r == unzigzag(v as nat),
{
    assert(v >> 1 <= 0x7fff_ffff && v & 1 <= 1) by (bit_vector);
    let h = (v >> 1) as i32;
    let m = -((v & 1) as i32);
    assert(h == v / 2 && v & 1 == v % 2) by (bit_vector)
        requires
            h == (v >> 1) as i32,
    ;
    assert(h ^ m == (if m == 0 { h as int } else { -h - 1 })) by (bit_vector)
        requires
            m == 0 || m == -1,
    ;
    h ^ m
}

/// Zigzag-maps a 64-bit signed value.
pub fn varint_to_varuint_64(v: i64) -> (r: u64)
    ensures
        r == zigzag(v as int),
{
    assert(((v << 1) ^ (v >> 63)) as u64 == (if v >= 0 { 2 * v } else { -2 * v - 1 })) by (bit_vector);
    ((v << 1) ^ (v >> 63)) as u64
}

/// Maps a magnitude back to the 64-bit signed value it stands for.
pub fn varuint_to_varint_64(v: u64) -> (r: i64)
    ensures
        r == unzigzag(v as nat),
{
    assert(v >> 1 <= 0x7fff_ffff_ffff_ffff && v & 1 <= 1) by (bit_vector);
    let h = (v >> 1) as i64;
    let m = -((v & 1) as i64);
    assert(h == v / 2 && v & 1 == v % 2) by (bit_vector)
        requires
            h == (v >> 1) as i64,
    ;
    assert(h ^ m == (if m == 0 { h as int } else { -h - 1 })) by (bit_vector)
        requires
            m == 0 || m == -1,
    ;
    h ^ m
}

/// Zigzag-maps a 128-bit signed value.
pub fn varint_to_varuint(v: i128) -> (r: u128)
    ensures
        r == zigzag(v as int),
{
    assert(((v << 1) ^ (v >> 127)) as u128 == (if v >= 0 { 2 * v } else { -2 * v - 1 })) by (bit_vector);
    ((v << 1) ^ (v >> 127)) as u128
}

/// Maps a magnitude back to the 128-bit signed value it stands for.
pub fn varuint_to_varint(v: u128) -> (r: i128)
    ensures
        r == unzigzag(v as nat),
{
    assert(v >> 1 <= 0x7fff_ffff_ffff_ffff_ffff_ffff_ffff_ffff && v & 1 <= 1) by (bit_vector);
    let h = (v >> 1) as i128;
    let m = -((v & 1) as i128);
    assert(h == v / 2 && v & 1 == v % 2) by (bit_vector)
        requires
            h == (v >> 1) as i128,
    ;
    assert(h ^ m == (if m == 0 { h as int } else { -h - 1 })) by (bit_vector)
        requires
            m == 0 || m == -1,
    ;
    h ^ m
}

/// Zigzag-maps a 128-bit signed value.
pub fn varint_to_varuint_128(v: i128) -> (r: u128)
    ensures
        r == zigzag(v as int),
{
    varint_to_varuint(v)
}

/// Maps a magnitude back to the 128-bit signed value it stands for.
pub fn varuint_to_varint_128(v: u128) -> (r: i128)
    ensures
        r == unzigzag(v as nat),
{
    varuint_to_varint(v)
}

/// Zigzag bijection: mapping a signed value to its magnitude and back gives the value.
pub proof fn lemma_zigzag_round_trip(s: int)
    ensures
        unzigzag(zigzag(s)) == s,
{
}

/// Every magnitude stands for exactly one signed value: mapping it back and forth keeps it.
pub proof fn lemma_unzigzag_round_trip(u: nat)
    ensures
        zigzag(unzigzag(u)) == u,
{
}

/// The signed values of `bits` bits, from `-2^(bits-1)` to `2^(bits-1) - 1`, map exactly onto the
/// magnitudes of `bits` bits, from `0` to `2^bits - 1`.
pub proof fn lemma_zigzag_range(s: int, half: int)
    requires
        half > 0,
    ensures
        -half <= s < half <==> zigzag(s) < 2 * half,
{
}

} // verus!
