use varuint::zigzag::{
    varint_to_varuint, varint_to_varuint_128, varint_to_varuint_16, varint_to_varuint_32,
    varint_to_varuint_64, varint_to_varuint_8, varuint_to_varint, varuint_to_varint_128,
    varuint_to_varint_16, varuint_to_varint_32, varuint_to_varint_64, varuint_to_varint_8,
};
use varuint::{
    decode_varuint, encoded_len, read_value, read_value_128, read_value_32, read_value_64,
    write_value, Deserializable, ReadVarint, Serializable, Varint, VarintError, VarintSizeHint,
    Varuint, WriteVarint,
};

fn encode_u128(v: u128) -> Vec<u8> {
    let mut out = Vec::new();
    let n = out.write_varint(v);
    assert_eq!(n, out.len());
    out
}

#[test]
fn concrete_vectors() {
    assert_eq!(encode_u128(0), vec![0x00]);
    assert_eq!(encode_u128(240), vec![0xF0]);
    assert_eq!(encode_u128(241), vec![0xF1, 0x01]);
    assert_eq!(encode_u128(2032), vec![0xF8, 0x00, 0x00]);
    assert_eq!(encode_u128(4294967295), vec![0xFA, 0xFF, 0xFF, 0xFF, 0xFF]);
    let mut out = Vec::new();
    assert_eq!(out.write_varint(4294967295u32), 5);
    assert_eq!(out, vec![0xFA, 0xFF, 0xFF, 0xFF, 0xFF]);
}

#[test]
fn minus_one_encodes_as_one() {
    let mut a = Vec::new();
    a.write_varint(-1i8);
    let mut b = Vec::new();
    b.write_varint(-1i64);
    let mut c = Vec::new();
    c.write_varint(1u16);
    assert_eq!(a, vec![0x01]);
    assert_eq!(b, vec![0x01]);
    assert_eq!(c, vec![0x01]);
}

#[test]
fn class_two_and_three_layout() {
    // class 2: prefix 241 + (v - 240) / 256, then (v - 240) % 256
    assert_eq!(encode_u128(2031), vec![247, 255]);
    assert_eq!(encode_u128(500), vec![242, 4]);
    // class 3 keeps its two payload bytes high byte first
    assert_eq!(encode_u128(2032 + 0x0102), vec![248, 0x01, 0x02]);
    assert_eq!(encode_u128(67567), vec![248, 0xFF, 0xFF]);
}

#[test]
fn little_endian_payloads() {
    assert_eq!(encode_u128(67568), vec![249, 0xF0, 0x07, 0x01]);
    assert_eq!(encode_u128(0x0102_0304_05), vec![251, 0x05, 0x04, 0x03, 0x02, 0x01]);
    assert_eq!(
        encode_u128(u64::MAX as u128),
        vec![254, 0xFF, 0xFF, 0xFF, 0xFF, 0xFF, 0xFF, 0xFF, 0xFF]
    );
    let big = encode_u128(u64::MAX as u128 + 1);
    assert_eq!(big.len(), 17);
    assert_eq!(big[0], 255);
    assert_eq!(&big[1..], &[0, 0, 0, 0, 0, 0, 0, 0, 1, 0, 0, 0, 0, 0, 0, 0]);
}

#[test]
fn size_hint_matches_serialize() {
    let values: [u128; 8] = [0, 240, 241, 2032, 67568, 1 << 40, 1 << 63, u128::MAX];
    for v in values {
        let x = Varuint(v);
        let mut out = Vec::new();
        let n = x.serialize(&mut out);
        assert_eq!(x.size_hint(), n);
        assert_eq!(out.len(), n);
    }
    let signed: [i64; 5] = [0, -1, 1000, i64::MIN, i64::MAX];
    for v in signed {
        let x = Varint(v);
        let mut out = Vec::new();
        assert_eq!(x.size_hint(), x.serialize(&mut out));
        assert_eq!(out.len(), x.size_hint());
    }
}

#[test]
fn zigzag_extremes() {
    assert_eq!(varint_to_varuint_8(0), 0);
    assert_eq!(varint_to_varuint_8(-1), 1);
    assert_eq!(varint_to_varuint_8(1), 2);
    assert_eq!(varint_to_varuint_8(i8::MIN), u8::MAX);
    assert_eq!(varint_to_varuint_8(i8::MAX), u8::MAX - 1);
    assert_eq!(varuint_to_varint_8(u8::MAX), i8::MIN);
    assert_eq!(varuint_to_varint_16(varint_to_varuint_16(i16::MIN)), i16::MIN);
    assert_eq!(varuint_to_varint_16(varint_to_varuint_16(i16::MAX)), i16::MAX);
    assert_eq!(varuint_to_varint_32(varint_to_varuint_32(i32::MIN)), i32::MIN);
    assert_eq!(varuint_to_varint_32(varint_to_varuint_32(-12345)), -12345);
    assert_eq!(varuint_to_varint_64(varint_to_varuint_64(i64::MIN)), i64::MIN);
    assert_eq!(varuint_to_varint_64(varint_to_varuint_64(i64::MAX)), i64::MAX);
    assert_eq!(varint_to_varuint_128(i128::MIN), u128::MAX);
    assert_eq!(varuint_to_varint_128(varint_to_varuint_128(i128::MAX)), i128::MAX);
    assert_eq!(varint_to_varuint(-3), 5);
    assert_eq!(varuint_to_varint(5), -3);
}

#[test]
fn length_class_is_monotonic_on_boundaries() {
    let values: [u128; 20] = [
        0, 240, 241, 2031, 2032, 67567, 67568, 16777215, 16777216, 4294967295, 4294967296,
        1099511627775, 1099511627776, 281474976710655, 281474976710656, 72057594037927935,
        72057594037927936, u64::MAX as u128, u64::MAX as u128 + 1, u128::MAX,
    ];
    let sizes: [usize; 20] = [1, 1, 2, 2, 3, 3, 4, 4, 5, 5, 6, 6, 7, 7, 8, 8, 9, 9, 17, 17];
    for i in 0..values.len() {
        assert_eq!(values[i].varint_size(), sizes[i]);
        if i > 0 {
            assert!(values[i - 1].varint_size() <= values[i].varint_size());
        }
    }
}

#[test]
fn prefix_255_rejected_below_128_bits() {
    let mut bytes = vec![255u8];
    bytes.extend_from_slice(&[0u8; 16]);
    let mut r: &[u8] = &bytes;
    assert_eq!(ReadVarint::<u8>::read_varint(&mut r), Err(VarintError::InvalidEncoding));
    assert_eq!(ReadVarint::<u16>::read_varint(&mut r), Err(VarintError::InvalidEncoding));
    assert_eq!(ReadVarint::<u32>::read_varint(&mut r), Err(VarintError::InvalidEncoding));
    assert_eq!(ReadVarint::<u64>::read_varint(&mut r), Err(VarintError::InvalidEncoding));
    assert_eq!(ReadVarint::<i64>::read_varint(&mut r), Err(VarintError::InvalidEncoding));
    assert_eq!(r.len(), 17);
    assert_eq!(ReadVarint::<u128>::read_varint(&mut r), Ok(0));
    assert!(r.is_empty());
}

#[test]
fn too_large_for_width_rejected() {
    // 2-byte class holding 440 does not fit in a u8
    let bytes = [242u8, 200];
    let mut r: &[u8] = &bytes;
    assert_eq!(ReadVarint::<u8>::read_varint(&mut r), Err(VarintError::InvalidEncoding));
    // 255 fits
    let bytes = [241u8, 15];
    let mut r: &[u8] = &bytes;
    assert_eq!(ReadVarint::<u8>::read_varint(&mut r), Ok(255));
    // 3-byte class holding 67567 does not fit in a u16
    let bytes = [248u8, 0xFF, 0xFF];
    let mut r: &[u8] = &bytes;
    assert_eq!(ReadVarint::<u16>::read_varint(&mut r), Err(VarintError::InvalidEncoding));
    // a 4-byte prefix is refused for u16 before any payload is needed
    let bytes = [249u8];
    let mut r: &[u8] = &bytes;
    assert_eq!(ReadVarint::<u16>::read_varint(&mut r), Err(VarintError::InvalidEncoding));
}

#[test]
fn truncated_input_is_eof() {
    let empty: [u8; 0] = [];
    let mut r: &[u8] = &empty;
    assert_eq!(ReadVarint::<u32>::read_varint(&mut r), Err(VarintError::UnexpectedEof));
    let bytes = [250u8, 1, 2];
    let mut r: &[u8] = &bytes;
    assert_eq!(ReadVarint::<u32>::read_varint(&mut r), Err(VarintError::UnexpectedEof));
    assert_eq!(r.len(), 3);
    let mut r: &[u8] = &bytes;
    assert_eq!(Varuint::deserialize(&mut r), Err(VarintError::UnexpectedEof));
}

#[test]
fn decoder_reports_length() {
    assert_eq!(decode_varuint(&[0xF1, 0x01, 9], 16), Ok((241, 2)));
    assert_eq!(decode_varuint(&[0xF8, 0x00, 0x00], 32), Ok((2032, 3)));
    assert_eq!(decode_varuint(&[7], 8), Ok((7, 1)));
    assert_eq!(encoded_len(240), 1);
    assert_eq!(encoded_len(247), 2);
    assert_eq!(encoded_len(248), 3);
    assert_eq!(encoded_len(250), 5);
    assert_eq!(encoded_len(254), 9);
    assert_eq!(encoded_len(255), 17);
}

#[test]
fn stream_of_values() {
    let mut out = Vec::new();
    out.write_varint(1u8);
    out.write_varint(-300i16);
    Varint(-56_782i128).serialize(&mut out);
    let mut r: &[u8] = &out;
    assert_eq!(ReadVarint::<u8>::read_varint(&mut r), Ok(1));
    assert_eq!(ReadVarint::<i16>::read_varint(&mut r), Ok(-300));
    assert_eq!(Varint::<i128>::deserialize(&mut r), Ok(Varint(-56_782i128)));
    assert!(r.is_empty());
}

#[test]
fn signed_varint_sizes() {
    let cases: [(i128, usize); 22] = [
        (0, 1), (1, 1), (-1, 1), (-120, 1), (120, 1),
        (-2031 / 2, 2), (2031 / 2, 2), (-67567 / 2, 3), (67567 / 2, 3),
        (-16777215 / 2, 4), (16777215 / 2, 4), (-4294967295 / 2, 5), (4294967295 / 2, 5),
        (-1099511627775 / 2, 6), (1099511627775 / 2, 6), (-281474976710655 / 2, 7),
        (281474976710655 / 2, 7), (-72057594037927935 / 2, 8), (72057594037927935 / 2, 8),
        (i64::MIN as i128, 9), (i128::MIN, 17), (i128::MAX, 17),
    ];
    for (v, size) in cases {
        let x = Varint(v);
        assert_eq!(x.size_hint(), size);
        let mut out = Vec::new();
        assert_eq!(x.serialize(&mut out), size);
        assert_eq!(Varint::<i128>::deserialize(&mut (&out as &[u8])), Ok(x));
    }
}

#[test]
fn varuint_round_trip() {
    for v in [0u128, 241, 67567, 1 << 100, u128::MAX] {
        let x = Varuint(v);
        let mut out = Vec::new();
        x.serialize_buf(&mut out);
        assert_eq!(Varuint::deserialize(&mut (&out as &[u8])), Ok(x));
    }
}

#[test]
fn little_endian_helpers() {
    let mut out = vec![9u8];
    write_value(&mut out, 0x0102_0304, 3);
    assert_eq!(out, vec![9, 0x04, 0x03, 0x02]);
    assert_eq!(read_value(&[0x04, 0x03, 0x02, 0x01], 3), 0x020304);
    assert_eq!(read_value_32(&[0x04, 0x03, 0x02, 0x01]), 0x01020304);
    assert_eq!(read_value_64(&[1, 0, 0, 0, 0, 0, 0, 0x80]), 0x8000_0000_0000_0001);
    assert_eq!(read_value_128(&[0xFF; 16]), u128::MAX);
}

#[test]
fn conversions_and_defaults() {
    assert_eq!(Varint::<i64>::from(-5i8), Varint(-5i64));
    assert_eq!(Varint::<i128>::from(i64::MIN), Varint(i64::MIN as i128));
    assert_eq!(Varint::<i32>::from(-300i16), Varint(-300i32));
    assert_eq!(Varint::<u128>::from(7u16), Varint(7u128));
    assert_eq!(Varuint::from(u64::MAX), Varuint(u64::MAX as u128));
    assert_eq!(Varuint::default(), Varuint(0));
    assert_eq!(Varint::<i8>::default(), Varint(0i8));
    assert_eq!(Varint::<u128>::default(), Varint(0u128));
}
