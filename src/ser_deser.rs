//! Values that know their own encoding.
use crate::layout::{encoding, VarintError};
use crate::read_write::{ReadVarint, VarintSizeHint, WriteVarint};
use crate::varint::{decoded_varint, Varint};
use vstd::prelude::*;

verus! {

/// Types that write themselves to a byte sink.
pub trait Serializable {
    /// The bytes that serializing the value writes.
    spec fn encoded(&self) -> Seq<u8>;

    /// The exact number of bytes that `serialize` writes.
    fn size_hint(&self) -> (r: usize)
        ensures
            r == self.encoded().len(),
    ;

    /// Appends the encoding of the value to `w` and returns the number of bytes written.
    fn serialize(&self, w: &mut Vec<u8>) -> (r: usize)
        ensures
            final(w)@ == old(w)@ + self.encoded(),
            r == self.encoded().len(),
    ;
}

/// Types that read themselves from the front of a byte slice.
pub trait Deserializable: Sized {
    /// What decoding the bytes `s` gives: the value and the number of bytes it takes, or the
    /// error.
    spec fn decoded(s: Seq<u8>) -> Result<(Self, nat), VarintError>;

    /// Decodes a value from the front of `r`. On success `r` is advanced past the encoding; on
    /// failure it is left as it was.
    fn deserialize(r: &mut &[u8]) -> (res: Result<Self, VarintError>)
        ensures
            match Self::decoded(old(r)@) {
                Ok((v, n)) => res == Ok::<Self, VarintError>(v) && final(r)@ == old(r)@.skip(
                    n as int,
                ),
                Err(e) => res == Err::<Self, VarintError>(e) && final(r)@ == old(r)@,
            },
    ;
}

impl Serializable for Varint<u8> {
    open spec fn encoded(&self) -> Seq<u8> {
        encoding(self.0.magnitude())
    }

    fn size_hint(&self) -> (r: usize) {
        self.0.varint_size()
    }

    fn serialize(&self, w: &mut Vec<u8>) -> (r: usize) {
        w.write_varint(self.0)
    }
}

impl Deserializable for Varint<u8> {
    open spec fn decoded(s: Seq<u8>) -> Result<(Varint<u8>, nat), VarintError> {
        decoded_varint::<u8>(s)
    }

    fn deserialize(r: &mut &[u8]) -> (res: Result<Varint<u8>, VarintError>) {
        match ReadVarint::<u8>::read_varint(r) {
            Ok(v) => Ok(Varint(v)),
            Err(e) => Err(e),
        }
    }
}

impl Serializable for Varint<u16> {
    open spec fn encoded(&self) -> Seq<u8> {
        encoding(self.0.magnitude())
    }

    fn size_hint(&self) -> (r: usize) {
        self.0.varint_size()
    }

    fn serialize(&self, w: &mut Vec<u8>) -> (r: usize) {
        w.write_varint(self.0)
    }
}

impl Deserializable for Varint<u16> {
    open spec fn decoded(s: Seq<u8>) -> Result<(Varint<u16>, nat), VarintError> {
        decoded_varint::<u16>(s)
    }

    fn deserialize(r: &mut &[u8]) -> (res: Result<Varint<u16>, VarintError>) {
        match ReadVarint::<u16>::read_varint(r) {
            Ok(v) => Ok(Varint(v)),
            Err(e) => Err(e),
        }
    }
}

impl Serializable for Varint<u32> {
    open spec fn encoded(&self) -> Seq<u8> {
        encoding(self.0.magnitude())
    }

    fn size_hint(&self) -> (r: usize) {
        self.0.varint_size()
    }

    fn serialize(&self, w: &mut Vec<u8>) -> (r: usize) {
        w.write_varint(self.0)
    }
}

impl Deserializable for Varint<u32> {
    open spec fn decoded(s: Seq<u8>) -> Result<(Varint<u32>, nat), VarintError> {
        decoded_varint::<u32>(s)
    }

    fn deserialize(r: &mut &[u8]) -> (res: Result<Varint<u32>, VarintError>) {
        match ReadVarint::<u32>::read_varint(r) {
            Ok(v) => Ok(Varint(v)),
            Err(e) => Err(e),
        }
    }
}

impl Serializable for Varint<u64> {
    open spec fn encoded(&self) -> Seq<u8> {
        encoding(self.0.magnitude())
    }

    fn size_hint(&self) -> (r: usize) {
        self.0.varint_size()
    }

    fn serialize(&self, w: &mut Vec<u8>) -> (r: usize) {
        w.write_varint(self.0)
    }
}

impl Deserializable for Varint<u64> {
    open spec fn decoded(s: Seq<u8>) -> Result<(Varint<u64>, nat), VarintError> {
        decoded_varint::<u64>(s)
    }

    fn deserialize(r: &mut &[u8]) -> (res: Result<Varint<u64>, VarintError>) {
        match ReadVarint::<u64>::read_varint(r) {
            Ok(v) => Ok(Varint(v)),
            Err(e) => Err(e),
        }
    }
}

impl Serializable for Varint<u128> {
    open spec fn encoded(&self) -> Seq<u8> {
        encoding(self.0.magnitude())
    }

    fn size_hint(&self) -> (r: usize) {
        self.0.varint_size()
    }

    fn serialize(&self, w: &mut Vec<u8>) -> (r: usize) {
        w.write_varint(self.0)
    }
}

impl Deserializable for Varint<u128> {
    open spec fn decoded(s: Seq<u8>) -> Result<(Varint<u128>, nat), VarintError> {
        decoded_varint::<u128>(s)
    }

    fn deserialize(r: &mut &[u8]) -> (res: Result<Varint<u128>, VarintError>) {
        match ReadVarint::<u128>::read_varint(r) {
            Ok(v) => Ok(Varint(v)),
            Err(e) => Err(e),
        }
    }
}

impl Serializable for Varint<i8> {
    open spec fn encoded(&self) -> Seq<u8> {
        encoding(self.0.magnitude())
    }

    fn size_hint(&self) -> (r: usize) {
        self.0.varint_size()
    }

    fn serialize(&self, w: &mut Vec<u8>) -> (r: usize) {
        w.write_varint(self.0)
    }
}

impl Deserializable for Varint<i8> {
    open spec fn decoded(s: Seq<u8>) -> Result<(Varint<i8>, nat), VarintError> {
        decoded_varint::<i8>(s)
    }

    fn deserialize(r: &mut &[u8]) -> (res: Result<Varint<i8>, VarintError>) {
        match ReadVarint::<i8>::read_varint(r) {
            Ok(v) => Ok(Varint(v)),
            Err(e) => Err(e),
        }
    }
}

impl Serializable for Varint<i16> {
    open spec fn encoded(&self) -> Seq<u8> {
        encoding(self.0.magnitude())
    }

    fn size_hint(&self) -> (r: usize) {
        self.0.varint_size()
    }

    fn serialize(&self, w: &mut Vec<u8>) -> (r: usize) {
        w.write_varint(self.0)
    }
}

impl Deserializable for Varint<i16> {
    open spec fn decoded(s: Seq<u8>) -> Result<(Varint<i16>, nat), VarintError> {
        decoded_varint::<i16>(s)
    }

    fn deserialize(r: &mut &[u8]) -> (res: Result<Varint<i16>, VarintError>) {
        match ReadVarint::<i16>::read_varint(r) {
            Ok(v) => Ok(Varint(v)),
            Err(e) => Err(e),
        }
    }
}

impl Serializable for Varint<i32> {
    open spec fn encoded(&self) -> Seq<u8> {
        encoding(self.0.magnitude())
    }

    fn size_hint(&self) -> (r: usize) {
        self.0.varint_size()
    }

    fn serialize(&self, w: &mut Vec<u8>) -> (r: usize) {
        w.write_varint(self.0)
    }
}

impl Deserializable for Varint<i32> {
    open spec fn decoded(s: Seq<u8>) -> Result<(Varint<i32>, nat), VarintError> {
        decoded_varint::<i32>(s)
    }

    fn deserialize(r: &mut &[u8]) -> (res: Result<Varint<i32>, VarintError>) {
        match ReadVarint::<i32>::read_varint(r) {
            Ok(v) => Ok(Varint(v)),
            Err(e) => Err(e),
        }
    }
}

impl Serializable for Varint<i64> {
    open spec fn encoded(&self) -> Seq<u8> {
        encoding(self.0.magnitude())
    }

    fn size_hint(&self) -> (r: usize) {
        self.0.varint_size()
    }

    fn serialize(&self, w: &mut Vec<u8>) -> (r: usize) {
        w.write_varint(self.0)
    }
}

impl Deserializable for Varint<i64> {
    open spec fn decoded(s: Seq<u8>) -> Result<(Varint<i64>, nat), VarintError> {
        decoded_varint::<i64>(s)
    }

    fn deserialize(r: &mut &[u8]) -> (res: Result<Varint<i64>, VarintError>) {
        match ReadVarint::<i64>::read_varint(r) {
            Ok(v) => Ok(Varint(v)),
            Err(e) => Err(e),
        }
    }
}

impl Serializable for Varint<i128> {
    open spec fn encoded(&self) -> Seq<u8> {
        encoding(self.0.magnitude())
    }

    fn size_hint(&self) -> (r: usize) {
        self.0.varint_size()
    }

    fn serialize(&self, w: &mut Vec<u8>) -> (r: usize) {
        w.write_varint(self.0)
    }
}

impl Deserializable for Varint<i128> {
    open spec fn decoded(s: Seq<u8>) -> Result<(Varint<i128>, nat), VarintError> {
        decoded_varint::<i128>(s)
    }

    fn deserialize(r: &mut &[u8]) -> (res: Result<Varint<i128>, VarintError>) {
        match ReadVarint::<i128>::read_varint(r) {
            Ok(v) => Ok(Varint(v)),
            Err(e) => Err(e),
        }
    }
}

} // verus!
