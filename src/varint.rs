//! The integer types that can be encoded, and the value type that wraps them.
use crate::layout::{
    decode, encoding, length_class, lemma_decode_encoding, valid_width, width_max, VarintError,
};
use crate::read_write::VarintSizeHint;
use crate::zigzag::{lemma_zigzag_range, lemma_zigzag_round_trip, unzigzag, zigzag};
use vstd::prelude::*;

verus! {

/// The integer types that a `Varint` can hold: `u8` to `u128` and `i8` to `i128`.
pub trait VarintBaseType:
    Copy + Clone + PartialEq + Eq + PartialOrd + Ord + core::fmt::Debug + VarintSizeHint {
    /// The width of the type, in bits.
    spec fn bits() -> nat;

    /// The value for which the magnitude `m` stands.
    spec fn from_magnitude(m: nat) -> Self;

    /// Every value has a magnitude that its width can hold, and stands for it alone.
    proof fn lemma_magnitude(self)
        ensures
            valid_width(Self::bits()),
            self.magnitude() <= width_max(Self::bits()),
            Self::from_magnitude(self.magnitude()) == self,
    ;
}

impl VarintBaseType for u8 {
    open spec fn bits() -> nat {
        8
    }

    open spec fn from_magnitude(m: nat) -> u8 {
        m as u8
    }

    proof fn lemma_magnitude(self) {
    }
}

impl VarintBaseType for u16 {
    open spec fn bits() -> nat {
        16
    }

    open spec fn from_magnitude(m: nat) -> u16 {
        m as u16
    }

    proof fn lemma_magnitude(self) {
    }
}

impl VarintBaseType for u32 {
    open spec fn bits() -> nat {
        32
    }

    open spec fn from_magnitude(m: nat) -> u32 {
        m as u32
    }

    proof fn lemma_magnitude(self) {
    }
}

impl VarintBaseType for u64 {
    open spec fn bits() -> nat {
        64
    }

    open spec fn from_magnitude(m: nat) -> u64 {
        m as u64
    }

    proof fn lemma_magnitude(self) {
    }
}

impl VarintBaseType for u128 {
    open spec fn bits() -> nat {
        128
    }

    open spec fn from_magnitude(m: nat) -> u128 {
        m as u128
    }

    proof fn lemma_magnitude(self) {
    }
}

impl VarintBaseType for i8 {
    open spec fn bits() -> nat {
        8
    }

    open spec fn from_magnitude(m: nat) -> i8 {
        unzigzag(m) as i8
    }

    proof fn lemma_magnitude(self) {
        lemma_zigzag_round_trip(self as int);
        lemma_zigzag_range(self as int, 128);
    }
}

impl VarintBaseType for i16 {
    open spec fn bits() -> nat {
        16
    }

    open spec fn from_magnitude(m: nat) -> i16 {
        unzigzag(m) as i16
    }

    proof fn lemma_magnitude(self) {
        lemma_zigzag_round_trip(self as int);
        lemma_zigzag_range(self as int, 32_768);
    }
}

impl VarintBaseType for i32 {
    open spec fn bits() -> nat {
        32
    }

    open spec fn from_magnitude(m: nat) -> i32 {
        unzigzag(m) as i32
    }

    proof fn lemma_magnitude(self) {
        lemma_zigzag_round_trip(self as int);
        lemma_zigzag_range(self as int, 2_147_483_648);
    }
}

impl VarintBaseType for i64 {
    open spec fn bits() -> nat {
        64
    }

    open spec fn from_magnitude(m: nat) -> i64 {
        unzigzag(m) as i64
    }

    proof fn lemma_magnitude(self) {
        lemma_zigzag_round_trip(self as int);
        lemma_zigzag_range(self as int, 9_223_372_036_854_775_808);
    }
}

impl VarintBaseType for i128 {
    open spec fn bits() -> nat {
        128
    }

    open spec fn from_magnitude(m: nat) -> i128 {
        unzigzag(m) as i128
    }

    proof fn lemma_magnitude(self) {
        lemma_zigzag_round_trip(self as int);
        lemma_zigzag_range(self as int, 170_141_183_460_469_231_731_687_303_715_884_105_728);
    }
}

/// A variable-length integer whose value is of type `T`.
#[derive(Clone, Copy, PartialEq, Eq, PartialOrd, Ord, Hash, Debug)]
pub struct Varint<T: VarintBaseType>(pub T);

impl From<i8> for Varint<i8> {
    fn from(v: i8) -> (r: Varint<i8>) {
        Varint(v)
    }
}

impl vstd::std_specs::convert::FromSpecImpl<i8> for Varint<i8> {
    open spec fn obeys_from_spec() -> bool {
        true
    }

    open spec fn from_spec(v: i8) -> Varint<i8> {
        Varint(v as i8)
    }
}

impl From<i8> for Varint<i16> {
    fn from(v: i8) -> (r: Varint<i16>) {
        Varint(v as i16)
    }
}

impl vstd::std_specs::convert::FromSpecImpl<i8> for Varint<i16> {
    open spec fn obeys_from_spec() -> bool {
        true
    }

    open spec fn from_spec(v: i8) -> Varint<i16> {
        Varint(v as i16)
    }
}

impl From<i8> for Varint<i32> {
    fn from(v: i8) -> (r: Varint<i32>) {
        Varint(v as i32)
    }
}

impl vstd::std_specs::convert::FromSpecImpl<i8> for Varint<i32> {
    open spec fn obeys_from_spec() -> bool {
        true
    }

    open spec fn from_spec(v: i8) -> Varint<i32> {
        Varint(v as i32)
    }
}

impl From<i8> for Varint<i64> {
    fn from(v: i8) -> (r: Varint<i64>) {
        Varint(v as i64)
    }
}

impl vstd::std_specs::convert::FromSpecImpl<i8> for Varint<i64> {
    open spec fn obeys_from_spec() -> bool {
        true
    }

    open spec fn from_spec(v: i8) -> Varint<i64> {
        Varint(v as i64)
    }
}

impl From<i8> for Varint<i128> {
    fn from(v: i8) -> (r: Varint<i128>) {
        Varint(v as i128)
    }
}

impl vstd::std_specs::convert::FromSpecImpl<i8> for Varint<i128> {
    open spec fn obeys_from_spec() -> bool {
        true
    }

    open spec fn from_spec(v: i8) -> Varint<i128> {
        Varint(v as i128)
    }
}

impl From<i16> for Varint<i16> {
    fn from(v: i16) -> (r: Varint<i16>) {
        Varint(v)
    }
}

impl vstd::std_specs::convert::FromSpecImpl<i16> for Varint<i16> {
    open spec fn obeys_from_spec() -> bool {
        true
    }

    open spec fn from_spec(v: i16) -> Varint<i16> {
        Varint(v as i16)
    }
}

impl From<i16> for Varint<i32> {
    fn from(v: i16) -> (r: Varint<i32>) {
        Varint(v as i32)
    }
}

impl vstd::std_specs::convert::FromSpecImpl<i16> for Varint<i32> {
    open spec fn obeys_from_spec() -> bool {
        true
    }

    open spec fn from_spec(v: i16) -> Varint<i32> {
        Varint(v as i32)
    }
}

impl From<i16> for Varint<i64> {
    fn from(v: i16) -> (r: Varint<i64>) {
        Varint(v as i64)
    }
}

impl vstd::std_specs::convert::FromSpecImpl<i16> for Varint<i64> {
    open spec fn obeys_from_spec() -> bool {
        true
    }

    open spec fn from_spec(v: i16) -> Varint<i64> {
        Varint(v as i64)
    }
}

impl From<i16> for Varint<i128> {
    fn from(v: i16) -> (r: Varint<i128>) {
        Varint(v as i128)
    }
}

impl vstd::std_specs::convert::FromSpecImpl<i16> for Varint<i128> {
    open spec fn obeys_from_spec() -> bool {
        true
    }

    open spec fn from_spec(v: i16) -> Varint<i128> {
        Varint(v as i128)
    }
}

impl From<i32> for Varint<i32> {
    fn from(v: i32) -> (r: Varint<i32>) {
        Varint(v)
    }
}

impl vstd::std_specs::convert::FromSpecImpl<i32> for Varint<i32> {
    open spec fn obeys_from_spec() -> bool {
        true
    }

    open spec fn from_spec(v: i32) -> Varint<i32> {
        Varint(v as i32)
    }
}

impl From<i32> for Varint<i64> {
    fn from(v: i32) -> (r: Varint<i64>) {
        Varint(v as i64)
    }
}

impl vstd::std_specs::convert::FromSpecImpl<i32> for Varint<i64> {
    open spec fn obeys_from_spec() -> bool {
        true
    }

    open spec fn from_spec(v: i32) -> Varint<i64> {
        Varint(v as i64)
    }
}

impl From<i32> for Varint<i128> {
    fn from(v: i32) -> (r: Varint<i128>) {
        Varint(v as i128)
    }
}

impl vstd::std_specs::convert::FromSpecImpl<i32> for Varint<i128> {
    open spec fn obeys_from_spec() -> bool {
        true
    }

    open spec fn from_spec(v: i32) -> Varint<i128> {
        Varint(v as i128)
    }
}

impl From<i64> for Varint<i64> {
    fn from(v: i64) -> (r: Varint<i64>) {
        Varint(v)
    }
}

impl vstd::std_specs::convert::FromSpecImpl<i64> for Varint<i64> {
    open spec fn obeys_from_spec() -> bool {
        true
    }

    open spec fn from_spec(v: i64) -> Varint<i64> {
        Varint(v as i64)
    }
}

impl From<i64> for Varint<i128> {
    fn from(v: i64) -> (r: Varint<i128>) {
        Varint(v as i128)
    }
}

impl vstd::std_specs::convert::FromSpecImpl<i64> for Varint<i128> {
    open spec fn obeys_from_spec() -> bool {
        true
    }

    open spec fn from_spec(v: i64) -> Varint<i128> {
        Varint(v as i128)
    }
}

impl From<i128> for Varint<i128> {
    fn from(v: i128) -> (r: Varint<i128>) {
        Varint(v)
    }
}

impl vstd::std_specs::convert::FromSpecImpl<i128> for Varint<i128> {
    open spec fn obeys_from_spec() -> bool {
        true
    }

    open spec fn from_spec(v: i128) -> Varint<i128> {
        Varint(v as i128)
    }
}

impl From<u8> for Varint<u128> {
    fn from(v: u8) -> (r: Varint<u128>) {
        Varint(v as u128)
    }
}

impl vstd::std_specs::convert::FromSpecImpl<u8> for Varint<u128> {
    open spec fn obeys_from_spec() -> bool {
        true
    }

    open spec fn from_spec(v: u8) -> Varint<u128> {
        Varint(v as u128)
    }
}

impl From<u16> for Varint<u128> {
    fn from(v: u16) -> (r: Varint<u128>) {
        Varint(v as u128)
    }
}

impl vstd::std_specs::convert::FromSpecImpl<u16> for Varint<u128> {
    open spec fn obeys_from_spec() -> bool {
        true
    }

    open spec fn from_spec(v: u16) -> Varint<u128> {
        Varint(v as u128)
    }
}

impl From<u32> for Varint<u128> {
    fn from(v: u32) -> (r: Varint<u128>) {
        Varint(v as u128)
    }
}

impl vstd::std_specs::convert::FromSpecImpl<u32> for Varint<u128> {
    open spec fn obeys_from_spec() -> bool {
        true
    }

    open spec fn from_spec(v: u32) -> Varint<u128> {
        Varint(v as u128)
    }
}

impl From<u64> for Varint<u128> {
    fn from(v: u64) -> (r: Varint<u128>) {
        Varint(v as u128)
    }
}

impl vstd::std_specs::convert::FromSpecImpl<u64> for Varint<u128> {
    open spec fn obeys_from_spec() -> bool {
        true
    }

    open spec fn from_spec(v: u64) -> Varint<u128> {
        Varint(v as u128)
    }
}

impl From<u128> for Varint<u128> {
    fn from(v: u128) -> (r: Varint<u128>) {
        Varint(v)
    }
}

impl vstd::std_specs::convert::FromSpecImpl<u128> for Varint<u128> {
    open spec fn obeys_from_spec() -> bool {
        true
    }

    open spec fn from_spec(v: u128) -> Varint<u128> {
        Varint(v as u128)
    }
}

impl Default for Varint<u128> {
    fn default() -> (r: Varint<u128>)
        ensures
            r.0 == 0,
    {
        Varint(0)
    }
}

impl Default for Varint<i8> {
    fn default() -> (r: Varint<i8>)
        ensures
            r.0 == 0,
    {
        Varint(0)
    }
}

impl Default for Varint<i16> {
    fn default() -> (r: Varint<i16>)
        ensures
            r.0 == 0,
    {
        Varint(0)
    }
}

impl Default for Varint<i32> {
    fn default() -> (r: Varint<i32>)
        ensures
            r.0 == 0,
    {
        Varint(0)
    }
}

impl Default for Varint<i64> {
    fn default() -> (r: Varint<i64>)
        ensures
            r.0 == 0,
    {
        Varint(0)
    }
}

impl Default for Varint<i128> {
    fn default() -> (r: Varint<i128>)
        ensures
            r.0 == 0,
    {
        Varint(0)
    }
}

/// What a decoder of values of type `T` makes of the bytes `s`: the value and the number of
/// bytes that its encoding takes, or the error.
pub open spec fn decoded_varint<T: VarintBaseType>(s: Seq<u8>) -> Result<(Varint<T>, nat), VarintError> {
    match decode(s, T::bits()) {
        Ok((m, n)) => Ok((Varint(T::from_magnitude(m)), n)),
        Err(e) => Err(e),
    }
}

/// Round trip: decoding the encoding of any value of any integer type, whatever bytes follow it,
/// gives back the value and consumes exactly the encoding.
pub proof fn lemma_varint_round_trip<T: VarintBaseType>(v: T, rest: Seq<u8>)
    ensures
        decoded_varint::<T>(encoding(v.magnitude()) + rest) == Ok::<(Varint<T>, nat), VarintError>(
            (Varint(v), length_class(v.magnitude())),
        ),
{
    v.lemma_magnitude();
    lemma_decode_encoding(v.magnitude(), T::bits(), rest);
}

} // verus!
