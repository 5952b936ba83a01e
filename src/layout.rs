//! The wire format as mathematics: which magnitude takes how many bytes, which bytes encode it,
//! and what a decoder for a given width makes of a byte sequence.
use vstd::arithmetic::div_mod::{lemma_div_denominator, lemma_mod_breakdown};
use vstd::prelude::*;

verus! {

/// Why a decode fails.
#[derive(Clone, Copy, PartialEq, Eq, Structural, Debug)]
pub enum VarintError {
    /// The input ended before the encoding did.
    UnexpectedEof,
    /// The encoding holds a value that the destination width cannot represent.
    InvalidEncoding,
}

/// `256^n`.
pub open spec fn pow256(n: nat) -> nat
    decreases n,
{
    if n == 0 {
        1
    } else {
        256 * pow256((n - 1) as nat)
    }
}

/// The number of bytes (prefix byte included) that the encoding of `m` occupies.
pub open spec fn length_class(m: nat) -> nat {
    if m <= 240 {
        1
    } else if m <= 2031 {
        2
    } else if m <= 67567 {
        3
    } else if m <= 0xff_ffff {
        4
    } else if m <= 0xffff_ffff {
        5
    } else if m <= 0xff_ffff_ffff {
        6
    } else if m <= 0xffff_ffff_ffff {
        7
    } else if m <= 0xff_ffff_ffff_ffff {
        8
    } else if m <= 0xffff_ffff_ffff_ffff {
        9
    } else {
        17
    }
}

/// The low `n` bytes of `m`, least significant first.
pub open spec fn le_bytes(m: nat, n: nat) -> Seq<u8> {
    Seq::new(n, |i: int| ((m / pow256(i as nat)) % 256) as u8)
}

/// The unsigned integer that `s` holds, least significant byte first.
pub open spec fn le_value(s: Seq<u8>) -> nat
    decreases s.len(),
{
    if s.len() == 0 {
        0
    } else {
        s[0] as nat + 256 * le_value(s.drop_first())
    }
}

/// The prefix byte of a length class that carries a little-endian payload (classes 4 to 9, 17).
pub open spec fn le_prefix(class: nat) -> u8 {
    if class == 17 {
        255
    } else {
        (class + 245) as u8
    }
}

/// The encoding of the magnitude `m`.
pub open spec fn encoding(m: nat) -> Seq<u8> {
    let c = length_class(m);
    if c == 1 {
        seq![m as u8]
    } else if c == 2 {
        seq![(241 + (m - 240) / 256) as u8, ((m - 240) % 256) as u8]
    } else if c == 3 {
        seq![248u8, ((m - 2032) / 256) as u8, ((m - 2032) % 256) as u8]
    } else {
        seq![le_prefix(c)] + le_bytes(m, (c - 1) as nat)
    }
}

/// The encoded length (prefix byte included) that a prefix byte announces.
pub open spec fn prefix_class(p: u8) -> nat {
    if p <= 240 {
        1
    } else if p <= 247 {
        2
    } else if p == 248 {
        3
    } else if p <= 254 {
        (p - 245) as nat
    } else {
        17
    }
}

/// The magnitude held by an encoding that starts `s` and is complete in it.
pub open spec fn decoded_value(s: Seq<u8>) -> nat
    recommends
        s.len() >= 1,
        s.len() >= prefix_class(s[0]),
{
    let p = s[0];
    let c = prefix_class(p);
    if c == 1 {
        p as nat
    } else if c == 2 {
        (240 + 256 * (p - 241) + s[1] as nat) as nat
    } else if c == 3 {
        2032 + 256 * (s[1] as nat) + s[2] as nat
    } else {
        le_value(s.subrange(1, c as int))
    }
}

/// The widths, in bits, that a value can have.
pub open spec fn valid_width(bits: nat) -> bool {
    bits == 8 || bits == 16 || bits == 32 || bits == 64 || bits == 128
}

/// The largest magnitude of a width.
pub open spec fn width_max(bits: nat) -> nat {
    if bits == 8 {
        0xff
    } else if bits == 16 {
        0xffff
    } else if bits == 32 {
        0xffff_ffff
    } else if bits == 64 {
        0xffff_ffff_ffff_ffff
    } else {
        0xffff_ffff_ffff_ffff_ffff_ffff_ffff_ffff
    }
}

/// What a decoder for a destination of `bits` bits makes of the bytes `s`: the magnitude and
/// the number of bytes it took, or the error.
///
/// A prefix whose length class no magnitude of the width reaches is refused at once; so is a
/// complete encoding whose magnitude the width cannot hold.
pub open spec fn decode(s: Seq<u8>, bits: nat) -> Result<(nat, nat), VarintError> {
    if s.len() == 0 {
        Err(VarintError::UnexpectedEof)
    } else if prefix_class(s[0]) > length_class(width_max(bits)) {
        Err(VarintError::InvalidEncoding)
    } else if s.len() < prefix_class(s[0]) {
        Err(VarintError::UnexpectedEof)
    } else if decoded_value(s) > width_max(bits) {
        Err(VarintError::InvalidEncoding)
    } else {
        Ok((decoded_value(s), prefix_class(s[0])))
    }
}

pub proof fn lemma_pow256_values()
    ensures
        pow256(1) == 0x100,
        pow256(2) == 0x1_0000,
        pow256(3) == 0x100_0000,
        pow256(4) == 0x1_0000_0000,
        pow256(5) == 0x100_0000_0000,
        pow256(6) == 0x1_0000_0000_0000,
        pow256(7) == 0x100_0000_0000_0000,
        pow256(8) == 0x1_0000_0000_0000_0000,
        pow256(16) == 0x1_0000_0000_0000_0000_0000_0000_0000_0000,
{
    reveal_with_fuel(pow256, 17);
}

pub proof fn lemma_pow256_positive(n: nat)
    ensures
        pow256(n) > 0,
    decreases n,
{
    if n > 0 {
        lemma_pow256_positive((n - 1) as nat);
    }
}

pub proof fn lemma_pow256_monotonic(a: nat, b: nat)
    requires
        a <= b,
    ensures
        pow256(a) <= pow256(b),
    decreases b,
{
    if a < b {
        lemma_pow256_monotonic(a, (b - 1) as nat);
        lemma_pow256_positive((b - 1) as nat);
    }
}

/// A little-endian value of `n` bytes is below `256^n`.
pub proof fn lemma_le_value_bound(s: Seq<u8>)
    ensures
        le_value(s) < pow256(s.len()),
    decreases s.len(),
{
    if s.len() > 0 {
        lemma_le_value_bound(s.drop_first());
        let rest = le_value(s.drop_first());
        let p = pow256((s.len() - 1) as nat);
        assert(s[0] as nat + 256 * rest < 256 * p) by (nonlinear_arith)
            requires
                rest < p,
                s[0] < 256,
        ;
    }
}

/// Reading back the low `n` bytes of `m` gives `m` modulo `256^n`.
pub proof fn lemma_le_bytes_value(m: nat, n: nat)
    ensures
        le_value(le_bytes(m, n)) == m % pow256(n),
    decreases n,
{
    if n == 0 {
        assert(m % 1 == 0) by (nonlinear_arith);
    } else {
        let s = le_bytes(m, n);
        let t = le_bytes(m / 256, (n - 1) as nat);
        assert forall|i: int| 0 <= i < n - 1 implies s.drop_first()[i] == t[i] by {
            lemma_pow256_positive(i as nat);
            lemma_div_denominator(m as int, 256, pow256(i as nat) as int);
        }
        assert(s.drop_first() =~= t);
        lemma_le_bytes_value(m / 256, (n - 1) as nat);
        lemma_pow256_positive((n - 1) as nat);
        lemma_mod_breakdown(m as int, 256, pow256((n - 1) as nat) as int);
        assert(pow256(0) == 1);
        assert(m / 1 == m) by (nonlinear_arith);
        assert(s[0] == (m % 256) as u8);
    }
}


/// Size agreement: the number of bytes that a size query announces for a magnitude (its length
/// class) is the length of the encoding that serializing it writes.
pub proof fn lemma_encoding_len(m: nat)
    ensures
        encoding(m).len() == length_class(m),
{
}

/// The length class never decreases as the magnitude grows.
pub proof fn lemma_length_class_monotonic(a: nat, b: nat)
    requires
        a <= b,
    ensures
        length_class(a) <= length_class(b),
{
}

/// Round trip: for every width and every magnitude that it can represent, decoding the
/// encoding of the magnitude, whatever bytes follow it, gives back the magnitude and consumes
/// exactly the encoding.
pub proof fn lemma_decode_encoding(m: nat, bits: nat, rest: Seq<u8>)
    requires
        valid_width(bits),
        m <= width_max(bits),
    ensures
        decode(encoding(m) + rest, bits) == Ok::<(nat, nat), VarintError>((m, length_class(m))),
{
    let c = length_class(m);
    let e = encoding(m);
    let s = e + rest;
    lemma_length_class_monotonic(m, width_max(bits));
    assert(s[0] == e[0]);
    if c == 1 {
        assert(prefix_class(s[0]) == 1);
    } else if c == 2 {
        assert(s[1] == e[1]);
        let q = (m - 240) / 256;
        let r = (m - 240) % 256;
        assert(m - 240 == 256 * q + r && 0 <= q <= 6 && 0 <= r < 256) by (nonlinear_arith)
            requires
                240 < m <= 2031,
                q == (m - 240) / 256,
                r == (m - 240) % 256,
        ;
        assert(prefix_class(s[0]) == 2);
    } else if c == 3 {
        assert(s[1] == e[1] && s[2] == e[2]);
        let q = (m - 2032) / 256;
        let r = (m - 2032) % 256;
        assert(m - 2032 == 256 * q + r && 0 <= q < 256 && 0 <= r < 256) by (nonlinear_arith)
            requires
                2031 < m <= 67567,
                q == (m - 2032) / 256,
                r == (m - 2032) % 256,
        ;
        assert(prefix_class(s[0]) == 3);
    } else {
        let n = (c - 1) as nat;
        assert(prefix_class(s[0]) == c);
        assert(s.subrange(1, c as int) =~= le_bytes(m, n));
        lemma_le_bytes_value(m, n);
        lemma_pow256_values();
        assert(m < pow256(n));
        assert(m % pow256(n) == m) by (nonlinear_arith)
            requires
                m < pow256(n),
        ;
    }
}

/// A decoder for a width under 128 bits refuses a prefix byte of 255: that length class only
/// holds magnitudes that the width cannot represent.
pub proof fn lemma_width_ceiling(s: Seq<u8>, bits: nat)
    requires
        valid_width(bits),
        bits < 128,
        s.len() > 0,
        s[0] == 255,
    ensures
        decode(s, bits) == Err::<(nat, nat), VarintError>(VarintError::InvalidEncoding),
{
}

} // verus!
