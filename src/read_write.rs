//! Encoding and decoding of plain integers of every width, to a byte vector and from a byte
//! slice.
use crate::layout::{decode, encoding, length_class, VarintError};
use crate::varint::VarintBaseType;
use crate::varuint::{decode_varuint, Varuint};
use crate::zigzag::{
    varint_to_varuint_128, varint_to_varuint_16, varint_to_varuint_32, varint_to_varuint_64,
    varint_to_varuint_8, varuint_to_varint_128, varuint_to_varint_16, varuint_to_varint_32,
    varuint_to_varint_64, varuint_to_varint_8, zigzag,
};
use vstd::prelude::*;
use vstd::slice::slice_subrange;

verus! {

/// Integers that know the length of their own encoding.
pub trait VarintSizeHint: Sized {
    /// The unsigned magnitude that the encoding of the value holds: the value itself when it is
    /// unsigned, its zigzag image when it is signed.
    spec fn magnitude(self) -> nat;

    /// The number of bytes that the encoding of the value takes.
    fn varint_size(self) -> (r: usize)
        ensures
            r == length_class(self.magnitude()),
    ;
}

impl VarintSizeHint for u8 {
    open spec fn magnitude(self) -> nat {
        self as nat
    }

    fn varint_size(self) -> (r: usize) {
        if self <= 240 {
            1
        } else {
            2
        }
    }
}

impl VarintSizeHint for u16 {
    open spec fn magnitude(self) -> nat {
        self as nat
    }

    fn varint_size(self) -> (r: usize) {
        if self <= 240 {
            1
        } else if self <= 2_031 {
            2
        } else {
            3
        }
    }
}

impl VarintSizeHint for u32 {
    open spec fn magnitude(self) -> nat {
        self as nat
    }

    fn varint_size(self) -> (r: usize) {
        if self <= 240 {
            1
        } else if self <= 2_031 {
            2
        } else if self <= 67_567 {
            3
        } else if self <= 16_777_215 {
            4
        } else {
            5
        }
    }
}

impl VarintSizeHint for u64 {
    open spec fn magnitude(self) -> nat {
        self as nat
    }

    fn varint_size(self) -> (r: usize) {
        if self <= 240 {
            1
        } else if self <= 2_031 {
            2
        } else if self <= 67_567 {
            3
        } else if self <= 16_777_215 {
            4
        } else if self <= 4_294_967_295 {
            5
        } else if self <= 1_099_511_627_775 {
            6
        } else if self <= 281_474_976_710_655 {
            7
        } else if self <= 72_057_594_037_927_935 {
            8
        } else {
            9
        }
    }
}

impl VarintSizeHint for u128 {
    open spec fn magnitude(self) -> nat {
        self as nat
    }

    fn varint_size(self) -> (r: usize) {
        if self <= 240 {
            1
        } else if self <= 2_031 {
            2
        } else if self <= 67_567 {
            3
        } else if self <= 16_777_215 {
            4
        } else if self <= 4_294_967_295 {
            5
        } else if self <= 1_099_511_627_775 {
            6
        } else if self <= 281_474_976_710_655 {
            7
        } else if self <= 72_057_594_037_927_935 {
            8
        } else if self <= 18_446_744_073_709_551_615 {
            9
        } else {
            17
        }
    }
}

impl VarintSizeHint for i8 {
    open spec fn magnitude(self) -> nat {
        zigzag(self as int)
    }

    fn varint_size(self) -> (r: usize) {
        varint_to_varuint_8(self).varint_size()
    }
}

impl VarintSizeHint for i16 {
    open spec fn magnitude(self) -> nat {
        zigzag(self as int)
    }

    fn varint_size(self) -> (r: usize) {
        varint_to_varuint_16(self).varint_size()
    }
}

impl VarintSizeHint for i32 {
    open spec fn magnitude(self) -> nat {
        zigzag(self as int)
    }

    fn varint_size(self) -> (r: usize) {
        varint_to_varuint_32(self).varint_size()
    }
}

impl VarintSizeHint for i64 {
    open spec fn magnitude(self) -> nat {
        zigzag(self as int)
    }

    fn varint_size(self) -> (r: usize) {
        varint_to_varuint_64(self).varint_size()
    }
}

impl VarintSizeHint for i128 {
    open spec fn magnitude(self) -> nat {
        zigzag(self as int)
    }

    fn varint_size(self) -> (r: usize) {
        varint_to_varuint_128(self).varint_size()
    }
}

/// Byte sinks that integers of type `T` can be written to.
pub trait WriteVarint<T: VarintSizeHint> {
    /// The bytes that the sink holds.
    spec fn written(&self) -> Seq<u8>;

    /// Appends the encoding of `v` and returns the number of bytes written.
    fn write_varint(&mut self, v: T) -> (r: usize)
        ensures
            final(self).written() == old(self).written() + encoding(v.magnitude()),
            r == length_class(v.magnitude()),
    ;
}

impl WriteVarint<u8> for Vec<u8> {
    open spec fn written(&self) -> Seq<u8> {
        self@
    }

    fn write_varint(&mut self, v: u8) -> (r: usize) {
        Varuint(v as u128).serialize_buf(self)
    }
}

impl WriteVarint<u16> for Vec<u8> {
    open spec fn written(&self) -> Seq<u8> {
        self@
    }

    fn write_varint(&mut self, v: u16) -> (r: usize) {
        Varuint(v as u128).serialize_buf(self)
    }
}

impl WriteVarint<u32> for Vec<u8> {
    open spec fn written(&self) -> Seq<u8> {
        self@
    }

    fn write_varint(&mut self, v: u32) -> (r: usize) {
        Varuint(v as u128).serialize_buf(self)
    }
}

impl WriteVarint<u64> for Vec<u8> {
    open spec fn written(&self) -> Seq<u8> {
        self@
    }

    fn write_varint(&mut self, v: u64) -> (r: usize) {
        Varuint(v as u128).serialize_buf(self)
    }
}

impl WriteVarint<u128> for Vec<u8> {
    open spec fn written(&self) -> Seq<u8> {
        self@
    }

    fn write_varint(&mut self, v: u128) -> (r: usize) {
        Varuint(v as u128).serialize_buf(self)
    }
}

impl WriteVarint<i8> for Vec<u8> {
    open spec fn written(&self) -> Seq<u8> {
        self@
    }

    fn write_varint(&mut self, v: i8) -> (r: usize) {
        Varuint(varint_to_varuint_8(v) as u128).serialize_buf(self)
    }
}

impl WriteVarint<i16> for Vec<u8> {
    open spec fn written(&self) -> Seq<u8> {
        self@
    }

    fn write_varint(&mut self, v: i16) -> (r: usize) {
        Varuint(varint_to_varuint_16(v) as u128).serialize_buf(self)
    }
}

impl WriteVarint<i32> for Vec<u8> {
    open spec fn written(&self) -> Seq<u8> {
        self@
    }

    fn write_varint(&mut self, v: i32) -> (r: usize) {
        Varuint(varint_to_varuint_32(v) as u128).serialize_buf(self)
    }
}

impl WriteVarint<i64> for Vec<u8> {
    open spec fn written(&self) -> Seq<u8> {
        self@
    }

    fn write_varint(&mut self, v: i64) -> (r: usize) {
        Varuint(varint_to_varuint_64(v) as u128).serialize_buf(self)
    }
}

impl WriteVarint<i128> for Vec<u8> {
    open spec fn written(&self) -> Seq<u8> {
        self@
    }

    fn write_varint(&mut self, v: i128) -> (r: usize) {
        Varuint(varint_to_varuint_128(v) as u128).serialize_buf(self)
    }
}

/// Byte sources that integers of type `T` can be read from.
pub trait ReadVarint<T: VarintBaseType> {
    /// The bytes that are left to read.
    spec fn unread(&self) -> Seq<u8>;

    /// Decodes a value of type `T` from the front of the source. On success the source is
    /// advanced past the encoding; on failure it is left as it was.
    fn read_varint(&mut self) -> (r: Result<T, VarintError>)
        ensures
            match decode(old(self).unread(), T::bits()) {
                Ok((m, n)) => {
                    &&& r == Ok::<T, VarintError>(T::from_magnitude(m))
                    &&& final(self).unread() == old(self).unread().skip(n as int)
                },
                Err(e) => {
                    &&& r == Err::<T, VarintError>(e)
                    &&& final(self).unread() == old(self).unread()
                },
            },
    ;
}

impl<'a> ReadVarint<u8> for &'a [u8] {
    open spec fn unread(&self) -> Seq<u8> {
        (*self)@
    }

    fn read_varint(&mut self) -> (r: Result<u8, VarintError>) {
        match decode_varuint(*self, 8) {
            Ok((m, n)) => {
                *self = slice_subrange(*self, n, self.len());
                Ok(m as u8)
            },
            Err(e) => Err(e),
        }
    }
}

impl<'a> ReadVarint<u16> for &'a [u8] {
    open spec fn unread(&self) -> Seq<u8> {
        (*self)@
    }

    fn read_varint(&mut self) -> (r: Result<u16, VarintError>) {
        match decode_varuint(*self, 16) {
            Ok((m, n)) => {
                *self = slice_subrange(*self, n, self.len());
                Ok(m as u16)
            },
            Err(e) => Err(e),
        }
    }
}

impl<'a> ReadVarint<u32> for &'a [u8] {
    open spec fn unread(&self) -> Seq<u8> {
        (*self)@
    }

    fn read_varint(&mut self) -> (r: Result<u32, VarintError>) {
        match decode_varuint(*self, 32) {
            Ok((m, n)) => {
                *self = slice_subrange(*self, n, self.len());
                Ok(m as u32)
            },
            Err(e) => Err(e),
        }
    }
}

impl<'a> ReadVarint<u64> for &'a [u8] {
    open spec fn unread(&self) -> Seq<u8> {
        (*self)@
    }

    fn read_varint(&mut self) -> (r: Result<u64, VarintError>) {
        match decode_varuint(*self, 64) {
            Ok((m, n)) => {
                *self = slice_subrange(*self, n, self.len());
                Ok(m as u64)
            },
            Err(e) => Err(e),
        }
    }
}

impl<'a> ReadVarint<u128> for &'a [u8] {
    open spec fn unread(&self) -> Seq<u8> {
        (*self)@
    }

    fn read_varint(&mut self) -> (r: Result<u128, VarintError>) {
        match decode_varuint(*self, 128) {
            Ok((m, n)) => {
                *self = slice_subrange(*self, n, self.len());
                Ok(m as u128)
            },
            Err(e) => Err(e),
        }
    }
}

impl<'a> ReadVarint<i8> for &'a [u8] {
    open spec fn unread(&self) -> Seq<u8> {
        (*self)@
    }

    fn read_varint(&mut self) -> (r: Result<i8, VarintError>) {
        match decode_varuint(*self, 8) {
            Ok((m, n)) => {
                *self = slice_subrange(*self, n, self.len());
                Ok(varuint_to_varint_8(m as u8))
            },
            Err(e) => Err(e),
        }
    }
}

impl<'a> ReadVarint<i16> for &'a [u8] {
    open spec fn unread(&self) -> Seq<u8> {
        (*self)@
    }

    fn read_varint(&mut self) -> (r: Result<i16, VarintError>) {
        match decode_varuint(*self, 16) {
            Ok((m, n)) => {
                *self = slice_subrange(*self, n, self.len());
                Ok(varuint_to_varint_16(m as u16))
            },
            Err(e) => Err(e),
        }
    }
}

impl<'a> ReadVarint<i32> for &'a [u8] {
    open spec fn unread(&self) -> Seq<u8> {
        (*self)@
    }

    fn read_varint(&mut self) -> (r: Result<i32, VarintError>) {
        match decode_varuint(*self, 32) {
            Ok((m, n)) => {
                *self = slice_subrange(*self, n, self.len());
                Ok(varuint_to_varint_32(m as u32))
            },
            Err(e) => Err(e),
        }
    }
}

impl<'a> ReadVarint<i64> for &'a [u8] {
    open spec fn unread(&self) -> Seq<u8> {
        (*self)@
    }

    fn read_varint(&mut self) -> (r: Result<i64, VarintError>) {
        match decode_varuint(*self, 64) {
            Ok((m, n)) => {
                *self = slice_subrange(*self, n, self.len());
                Ok(varuint_to_varint_64(m as u64))
            },
            Err(e) => Err(e),
        }
    }
}

impl<'a> ReadVarint<i128> for &'a [u8] {
    open spec fn unread(&self) -> Seq<u8> {
        (*self)@
    }

    fn read_varint(&mut self) -> (r: Result<i128, VarintError>) {
        match decode_varuint(*self, 128) {
            Ok((m, n)) => {
                *self = slice_subrange(*self, n, self.len());
                Ok(varuint_to_varint_128(m as u128))
            },
            Err(e) => Err(e),
        }
    }
}

} // verus!
