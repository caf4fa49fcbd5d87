use mc_codec::error::{DecodeError, VarWidth};
use mc_codec::types::{Type, VarInt, VarLong};

// Sample encodings from the reference protocol's documentation.
fn var_int_samples() -> Vec<(VarInt, Vec<u8>)> {
    vec![
        (VarInt::new(0), vec![0x00]),
        (VarInt::new(1), vec![0x01]),
        (VarInt::new(2), vec![0x02]),
        (VarInt::new(127), vec![0x7f]),
        (VarInt::new(128), vec![0x80, 0x01]),
        (VarInt::new(255), vec![0xff, 0x01]),
        (VarInt::new(25565), vec![0xdd, 0xc7, 0x01]),
        (VarInt::new(2097151), vec![0xff, 0xff, 0x7f]),
        (VarInt::new(2147483647), vec![0xff, 0xff, 0xff, 0xff, 0x07]),
        (VarInt::new(-1), vec![0xff, 0xff, 0xff, 0xff, 0x0f]),
        (VarInt::new(-2147483648), vec![0x80, 0x80, 0x80, 0x80, 0x08]),
    ]
}

fn var_long_samples() -> Vec<(VarLong, Vec<u8>)> {
    vec![
        (VarLong::new(0), vec![0x00]),
        (VarLong::new(1), vec![0x01]),
        (VarLong::new(2), vec![0x02]),
        (VarLong::new(127), vec![0x7f]),
        (VarLong::new(128), vec![0x80, 0x01]),
        (VarLong::new(255), vec![0xff, 0x01]),
        (VarLong::new(2147483647), vec![0xff, 0xff, 0xff, 0xff, 0x07]),
        (
            VarLong::new(9223372036854775807),
            vec![0xff, 0xff, 0xff, 0xff, 0xff, 0xff, 0xff, 0xff, 0x7f],
        ),
        (
            VarLong::new(-1),
            vec![0xff, 0xff, 0xff, 0xff, 0xff, 0xff, 0xff, 0xff, 0xff, 0x01],
        ),
        (
            VarLong::new(-2147483648),
            vec![0x80, 0x80, 0x80, 0x80, 0xf8, 0xff, 0xff, 0xff, 0xff, 0x01],
        ),
        (
            VarLong::new(-9223372036854775808),
            vec![0x80, 0x80, 0x80, 0x80, 0x80, 0x80, 0x80, 0x80, 0x80, 0x01],
        ),
    ]
}

#[test]
fn write_var_int() {
    let mut buffer = Vec::new();
    for (value, bytes) in var_int_samples() {
        buffer.clear();
        value.write(&mut buffer);
        assert_eq!(bytes, buffer);
    }
}

#[test]
fn read_var_int() {
    for (value, bytes) in var_int_samples() {
        let (read, consumed) = VarInt::read(&bytes, 0).unwrap();
        assert_eq!(value, read);
        assert_eq!(consumed, bytes.len());
    }
}

#[test]
fn write_var_long() {
    let mut buffer = Vec::new();
    for (value, bytes) in var_long_samples() {
        buffer.clear();
        value.write(&mut buffer);
        assert_eq!(bytes, buffer);
    }
}

#[test]
fn read_var_long() {
    for (value, bytes) in var_long_samples() {
        let (read, consumed) = VarLong::read(&bytes, 0).unwrap();
        assert_eq!(value, read);
        assert_eq!(consumed, bytes.len());
    }
}

#[test]
fn var_int_round_trip_scan() {
    // A spread of values across the 32-bit range, including both extremes.
    let values = [
        i32::MIN,
        -2097152,
        -129,
        -128,
        -1,
        0,
        1,
        63,
        64,
        16383,
        16384,
        2097151,
        2097152,
        i32::MAX,
    ];
    for &v in values.iter() {
        let mut buffer = Vec::new();
        VarInt::new(v).write(&mut buffer);
        assert!((1..=5).contains(&buffer.len()));
        let (read, consumed) = VarInt::read(&buffer, 0).unwrap();
        assert_eq!(read.value, v);
        assert_eq!(consumed, buffer.len());
    }
}

#[test]
fn var_long_round_trip_scan() {
    let values = [
        i64::MIN,
        -34359738368,
        -1,
        0,
        1,
        127,
        128,
        34359738367,
        i64::MAX,
    ];
    for &v in values.iter() {
        let mut buffer = Vec::new();
        VarLong::new(v).write(&mut buffer);
        assert!((1..=10).contains(&buffer.len()));
        let (read, consumed) = VarLong::read(&buffer, 0).unwrap();
        assert_eq!(read.value, v);
        assert_eq!(consumed, buffer.len());
    }
}

#[test]
fn var_int_overflow() {
    // Six continuation-flagged groups: the reader must give up with an
    // overflow naming the 32-bit type after the fifth.
    let bytes = vec![0x80, 0x80, 0x80, 0x80, 0x80, 0x80];
    let err = VarInt::read(&bytes, 0).unwrap_err();
    assert_eq!(err, DecodeError::Overflow(VarWidth::Bits32));
}

#[test]
fn var_long_overflow() {
    let bytes = vec![0x80; 11];
    let err = VarLong::read(&bytes, 0).unwrap_err();
    assert_eq!(err, DecodeError::Overflow(VarWidth::Bits64));
}

#[test]
fn var_int_truncated() {
    let bytes = vec![0x80, 0x80];
    let err = VarInt::read(&bytes, 0).unwrap_err();
    assert_eq!(err, DecodeError::Truncated);
}

#[test]
fn var_int_accepts_padded_encoding() {
    // A non-minimal encoding still reads back; only the group count is
    // policed.
    let bytes = vec![0x80, 0x00];
    let (read, consumed) = VarInt::read(&bytes, 0).unwrap();
    assert_eq!(read.value, 0);
    assert_eq!(consumed, 2);
}

#[test]
fn string() {
    let value = "Hello, world!".to_string();
    let mut buffer = Vec::new();
    value.write(&mut buffer);
    let (read, _) = String::read(&buffer, 0).unwrap();
    assert_eq!(value, read);
}

#[test]
fn string_wire_form() {
    let value = "AB".to_string();
    let mut buffer = Vec::new();
    value.write(&mut buffer);
    assert_eq!(buffer, vec![0x02, 0x41, 0x42]);
}

#[test]
fn string_multibyte_round_trip() {
    // The length prefix counts bytes, not characters.
    let value = "héllo ✓".to_string();
    let mut buffer = Vec::new();
    value.write(&mut buffer);
    assert_eq!(buffer[0] as usize, value.as_bytes().len());
    let (read, consumed) = String::read(&buffer, 0).unwrap();
    assert_eq!(value, read);
    assert_eq!(consumed, buffer.len());
}

#[test]
fn string_truncated() {
    // The declared length exceeds what remains.
    let bytes = vec![0x05, b'a', b'b'];
    let err = String::read(&bytes, 0).unwrap_err();
    assert_eq!(err, DecodeError::Truncated);
}

#[test]
fn string_invalid_utf8() {
    let bytes = vec![0x01, 0xff];
    let err = String::read(&bytes, 0).unwrap_err();
    assert_eq!(err, DecodeError::InvalidUtf8);
}

#[test]
fn bool_round_trip() {
    let mut buffer = Vec::new();
    true.write(&mut buffer);
    false.write(&mut buffer);
    assert_eq!(buffer, vec![1, 0]);
    assert_eq!(bool::read(&buffer, 0).unwrap(), (true, 1));
    assert_eq!(bool::read(&buffer, 1).unwrap(), (false, 2));
    // Any nonzero byte reads as true.
    assert_eq!(bool::read(&vec![7], 0).unwrap(), (true, 1));
}

#[test]
fn byte_round_trip() {
    let mut buffer = Vec::new();
    200u8.write(&mut buffer);
    (-2i8).write(&mut buffer);
    assert_eq!(buffer, vec![200, 0xfe]);
    assert_eq!(u8::read(&buffer, 0).unwrap(), (200, 1));
    assert_eq!(i8::read(&buffer, 1).unwrap(), (-2, 2));
}

#[test]
fn fixed_width_big_endian() {
    let mut buffer = Vec::new();
    0x1234i16.write(&mut buffer);
    assert_eq!(buffer, vec![0x12, 0x34]);
    buffer.clear();
    (-1i16).write(&mut buffer);
    assert_eq!(buffer, vec![0xff, 0xff]);
    buffer.clear();
    0xabcdu16.write(&mut buffer);
    assert_eq!(buffer, vec![0xab, 0xcd]);
    buffer.clear();
    (-2i32).write(&mut buffer);
    assert_eq!(buffer, vec![0xff, 0xff, 0xff, 0xfe]);
    assert_eq!(i32::read(&buffer, 0).unwrap(), (-2, 4));
    buffer.clear();
    0x0102030405060708i64.write(&mut buffer);
    assert_eq!(buffer, vec![1, 2, 3, 4, 5, 6, 7, 8]);
    assert_eq!(i64::read(&buffer, 0).unwrap(), (0x0102030405060708, 8));
    buffer.clear();
    i64::MIN.write(&mut buffer);
    assert_eq!(buffer, vec![0x80, 0, 0, 0, 0, 0, 0, 0]);
    assert_eq!(i64::read(&buffer, 0).unwrap(), (i64::MIN, 8));
}

#[test]
fn fixed_width_truncated() {
    let bytes = vec![0x01, 0x02];
    assert_eq!(i32::read(&bytes, 0).unwrap_err(), DecodeError::Truncated);
    assert_eq!(i16::read(&bytes, 1).unwrap_err(), DecodeError::Truncated);
}

#[test]
fn sequential_reads() {
    let mut buffer = Vec::new();
    VarInt::new(300).write(&mut buffer);
    "ok".to_string().write(&mut buffer);
    9i32.write(&mut buffer);
    let (v, pos) = VarInt::read(&buffer, 0).unwrap();
    assert_eq!(v.value, 300);
    let (s, pos) = String::read(&buffer, pos).unwrap();
    assert_eq!(s, "ok");
    let (n, pos) = i32::read(&buffer, pos).unwrap();
    assert_eq!(n, 9);
    assert_eq!(pos, buffer.len());
}
