//! Variable-length signed and unsigned integers of 8 to 128 bits, encoded in 1 to 17 bytes.
//!
//! The first byte of an encoding alone tells its length. Signed values are zigzag-mapped onto
//! the unsigned domain and then encoded as unsigned values, so values close to zero, of either
//! sign, take few bytes.
pub mod layout;
mod read_write;
mod ser_deser;
mod varint;
mod varuint;
pub mod zigzag;

pub use crate::layout::VarintError;
pub use crate::read_write::{ReadVarint, VarintSizeHint, WriteVarint};
pub use crate::ser_deser::{Deserializable, Serializable};
pub use crate::varint::{Varint, VarintBaseType};
pub use crate::varuint::{
    decode_varuint, encoded_len, read_value, read_value_128, read_value_32, read_value_64,
    write_value, Varuint,
};
