//! The encoder and decoder that every width shares, and the 128-bit unsigned value type.
use crate::layout::{
    decode, decoded_value, encoding, le_bytes, le_value, length_class, lemma_le_value_bound,
    lemma_pow256_monotonic, lemma_pow256_positive, lemma_pow256_values, pow256, prefix_class,
    valid_width, width_max, VarintError,
};
use crate::ser_deser::{Deserializable, Serializable};
use vstd::arithmetic::div_mod::lemma_div_denominator;
use vstd::prelude::*;
use vstd::slice::slice_subrange;

verus! {

/// A variable-length unsigned integer of up to 128 bits.
#[derive(Clone, Copy, PartialEq, Eq, Structural, PartialOrd, Ord, Hash, Debug)]
pub struct Varuint(pub u128);

/// Appends the low `size` bytes of `v` to `buf`, least significant first.
pub fn write_value(buf: &mut Vec<u8>, v: u128, size: usize)
    requires
        size <= 16,
    ensures
        final(buf)@ == old(buf)@ + le_bytes(v as nat, size as nat),
{
    let ghost start = buf@;
    let mut rest: u128 = v;
    let mut i: usize = 0;
    proof {
        assert(pow256(0) == 1);
        assert(v as nat / 1 == v) by (nonlinear_arith);
        assert(start + le_bytes(v as nat, 0) =~= start);
    }
    while i < size
        invariant
            i <= size,
            buf@ == start + le_bytes(v as nat, i as nat),
            rest == v as nat / pow256(i as nat),
        decreases size - i,
    {
        proof {
            lemma_pow256_positive(i as nat);
            lemma_div_denominator(v as int, pow256(i as nat) as int, 256);
            assert(buf@.push((rest % 256) as u8) =~= start + le_bytes(v as nat, (i + 1) as nat));
        }
        buf.push((rest % 256) as u8);
        rest = rest / 256;
        i = i + 1;
    }
}

/// The little-endian value of the first `size` bytes of `buf`.
pub fn read_value(buf: &[u8], size: usize) -> (r: u128)
    requires
        size <= 16,
        size <= buf@.len(),
    ensures
        r == le_value(buf@.subrange(0, size as int)),
{
    let mut v: u128 = 0;
    let mut i: usize = size;
    proof {
        assert(buf@.subrange(size as int, size as int) =~= Seq::<u8>::empty());
    }
    while i > 0
        invariant
            i <= size <= 16,
            size <= buf@.len(),
            v == le_value(buf@.subrange(i as int, size as int)),
        decreases i,
    {
        i = i - 1;
        proof {
            let s = buf@.subrange(i as int, size as int);
            assert(s.drop_first() =~= buf@.subrange(i + 1, size as int));
            lemma_le_value_bound(buf@.subrange(i + 1, size as int));
            lemma_pow256_monotonic((size - i - 1) as nat, 15);
            lemma_pow256_values();
            assert(256 * pow256(15) == pow256(16));
            let b = buf@[i as int];
            assert(v * 256 + b < pow256(16)) by (nonlinear_arith)
                requires
                    v < pow256(15),
                    b < 256,
                    256 * pow256(15) == pow256(16),
            ;
        }
        v = v * 256 + buf[i] as u128;
    }
    v
}

/// The little-endian value of all the bytes of `buf`, at most sixteen.
pub fn read_value_128(buf: &[u8]) -> (r: u128)
    requires
        buf@.len() <= 16,
    ensures
        r == le_value(buf@),
{
    proof {
        assert(buf@.subrange(0, buf@.len() as int) =~= buf@);
    }
    read_value(buf, buf.len())
}

/// The little-endian value of all the bytes of `buf`, at most eight.
pub fn read_value_64(buf: &[u8]) -> (r: u64)
    requires
        buf@.len() <= 8,
    ensures
        r == le_value(buf@),
{
    proof {
        lemma_le_value_bound(buf@);
        lemma_pow256_monotonic(buf@.len(), 8);
        lemma_pow256_values();
    }
    read_value_128(buf) as u64
}

/// The little-endian value of all the bytes of `buf`, at most four.
pub fn read_value_32(buf: &[u8]) -> (r: u32)
    requires
        buf@.len() <= 4,
    ensures
        r == le_value(buf@),
{
    proof {
        lemma_le_value_bound(buf@);
        lemma_pow256_monotonic(buf@.len(), 4);
        lemma_pow256_values();
    }
    read_value_128(buf) as u32
}

/// The encoded length, prefix byte included, that the prefix byte `p` announces.
pub fn encoded_len(p: u8) -> (r: usize)
    ensures
        r == prefix_class(p),
{
    match p {
        0..=240 => 1,
        241..=247 => 2,
        248 => 3,
        249 => 4,
        250 => 5,
        251 => 6,
        252 => 7,
        253 => 8,
        254 => 9,
        255 => 17,
    }
}

/// The largest magnitude of a width of `bits` bits.
fn max_of_width(bits: u32) -> (r: u128)
    requires
        valid_width(bits as nat),
    ensures
        r == width_max(bits as nat),
{
    match bits {
        8 => 0xff,
        16 => 0xffff,
        32 => 0xffff_ffff,
        64 => 0xffff_ffff_ffff_ffff,
        _ => 0xffff_ffff_ffff_ffff_ffff_ffff_ffff_ffff,
    }
}

/// The magnitude held by the complete encoding of `len` bytes at the start of `buf`.
fn decode_magnitude(buf: &[u8], len: usize) -> (r: u128)
    requires
        buf@.len() >= 1,
        len == prefix_class(buf@[0]),
        buf@.len() >= len,
    ensures
        r == decoded_value(buf@),
{
    let p = buf[0];
    if len == 1 {
        p as u128
    } else if len == 2 {
        240 + 256 * (p as u128 - 241) + buf[1] as u128
    } else if len == 3 {
        2032 + 256 * buf[1] as u128 + buf[2] as u128
    } else {
        let payload = slice_subrange(buf, 1, len);
        if len <= 5 {
            read_value_32(payload) as u128
        } else if len <= 9 {
            read_value_64(payload) as u128
        } else {
            read_value_128(payload)
        }
    }
}

/// Decodes the magnitude encoded at the start of `buf` for a destination of `bits` bits, with
/// the number of bytes that its encoding takes.
pub fn decode_varuint(buf: &[u8], bits: u32) -> (r: Result<(u128, usize), VarintError>)
    requires
        valid_width(bits as nat),
    ensures
        r is Ok <==> decode(buf@, bits as nat) is Ok,
        r matches Ok((m, n)) ==> decode(buf@, bits as nat) == Ok::<(nat, nat), VarintError>(
            (m as nat, n as nat),
        ),
        r matches Err(e) ==> decode(buf@, bits as nat) == Err::<(nat, nat), VarintError>(e),
{
    if buf.len() == 0 {
        return Err(VarintError::UnexpectedEof);
    }
    let len = encoded_len(buf[0]);
    let max = max_of_width(bits);
    if len > Varuint(max).size_hint() {
        return Err(VarintError::InvalidEncoding);
    }
    if buf.len() < len {
        return Err(VarintError::UnexpectedEof);
    }
    let m = decode_magnitude(buf, len);
    if m > max {
        Err(VarintError::InvalidEncoding)
    } else {
        Ok((m, len))
    }
}

impl Varuint {
    /// Appends the encoding of the value to `buf` and returns its length.
    pub fn serialize_buf(&self, buf: &mut Vec<u8>) -> (r: usize)
        ensures
            final(buf)@ == old(buf)@ + encoding(self.0 as nat),
            r == length_class(self.0 as nat),
    {
        let size = self.size_hint();
        let v = self.0;
        let ghost start = buf@;
        let ghost e = encoding(v as nat);
        match size {
            1 => {
                buf.push(v as u8);
            },
            2 => {
                buf.push(((v - 240) / 256 + 241) as u8);
                buf.push(((v - 240) % 256) as u8);
            },
            3 => {
                buf.push(248);
                buf.push(((v - 2032) / 256) as u8);
                buf.push(((v - 2032) % 256) as u8);
            },
            4 => {
                buf.push(249);
                write_value(buf, v, 3);
            },
            5 => {
                buf.push(250);
                write_value(buf, v, 4);
            },
            6 => {
                buf.push(251);
                write_value(buf, v, 5);
            },
            7 => {
                buf.push(252);
                write_value(buf, v, 6);
            },
            8 => {
                buf.push(253);
                write_value(buf, v, 7);
            },
            9 => {
                buf.push(254);
                write_value(buf, v, 8);
            },
            _ => {
                buf.push(255);
                write_value(buf, v, 16);
            },
        }
        assert(buf@ =~= start + e);
        size
    }
}

impl From<u8> for Varuint {
    fn from(v: u8) -> (r: Varuint) {
        Varuint(v as u128)
    }
}

impl vstd::std_specs::convert::FromSpecImpl<u8> for Varuint {
    open spec fn obeys_from_spec() -> bool {
        true
    }

    open spec fn from_spec(v: u8) -> Varuint {
        Varuint(v as u128)
    }
}

impl From<u16> for Varuint {
    fn from(v: u16) -> (r: Varuint) {
        Varuint(v as u128)
    }
}

impl vstd::std_specs::convert::FromSpecImpl<u16> for Varuint {
    open spec fn obeys_from_spec() -> bool {
        true
    }

    open spec fn from_spec(v: u16) -> Varuint {
        Varuint(v as u128)
    }
}

impl From<u32> for Varuint {
    fn from(v: u32) -> (r: Varuint) {
        Varuint(v as u128)
    }
}

impl vstd::std_specs::convert::FromSpecImpl<u32> for Varuint {
    open spec fn obeys_from_spec() -> bool {
        true
    }

    open spec fn from_spec(v: u32) -> Varuint {
        Varuint(v as u128)
    }
}

impl From<u64> for Varuint {
    fn from(v: u64) -> (r: Varuint) {
        Varuint(v as u128)
    }
}

impl vstd::std_specs::convert::FromSpecImpl<u64> for Varuint {
    open spec fn obeys_from_spec() -> bool {
        true
    }

    open spec fn from_spec(v: u64) -> Varuint {
        Varuint(v as u128)
    }
}

impl From<u128> for Varuint {
    fn from(v: u128) -> (r: Varuint) {
        Varuint(v)
    }
}

impl vstd::std_specs::convert::FromSpecImpl<u128> for Varuint {
    open spec fn obeys_from_spec() -> bool {
        true
    }

    open spec fn from_spec(v: u128) -> Varuint {
        Varuint(v as u128)
    }
}

impl Default for Varuint {
    fn default() -> (r: Varuint)
        ensures
            r.0 == 0,
    {
        Varuint(0)
    }
}

impl Serializable for Varuint {
    open spec fn encoded(&self) -> Seq<u8> {
        encoding(self.0 as nat)
    }

    fn size_hint(&self) -> (r: usize) {
        let v = self.0;
        if v <= 240 {
            1
        } else if v <= 2031 {
            2
        } else if v <= 67567 {
            3
        } else if v <= 16777215 {
            4
        } else if v <= 4294967295 {
            5
        } else if v <= 1099511627775 {
            6
        } else if v <= 281474976710655 {
            7
        } else if v <= 72057594037927935 {
            8
        } else if v <= 18446744073709551615 {
            9
        } else {
            17
        }
    }

    fn serialize(&self, w: &mut Vec<u8>) -> (r: usize) {
        self.serialize_buf(w)
    }
}

impl Deserializable for Varuint {
    open spec fn decoded(s: Seq<u8>) -> Result<(Varuint, nat), VarintError> {
        match decode(s, 128) {
            Ok((m, n)) => Ok((Varuint(m as u128), n)),
            Err(e) => Err(e),
        }
    }

    fn deserialize(r: &mut &[u8]) -> (res: Result<Varuint, VarintError>) {
        match decode_varuint(*r, 128) {
            Ok((m, n)) => {
                *r = slice_subrange(*r, n, r.len());
                Ok(Varuint(m))
            },
            Err(e) => Err(e),
        }
    }
}

} // verus!
