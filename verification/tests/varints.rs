use python_interpreters::varint::{
    encode_signed_varint, encode_varint, read_signed_varint, read_varint, varint_fits,
};

#[test]
fn test_read_varint_single_byte() {
    let mut index = 0;
    assert_eq!(read_varint(&mut index, &[0]), 0);
    assert_eq!(index, 1);
    let mut index = 0;
    assert_eq!(read_varint(&mut index, &[63]), 63);
    assert_eq!(index, 1);
}

#[test]
fn test_read_varint_continuation() {
    // 65 carries chunk 1 with the continuation bit; 2 carries chunk 2
    let mut index = 0;
    assert_eq!(read_varint(&mut index, &[65, 2]), 1 + 2 * 64);
    assert_eq!(index, 2);
}

#[test]
fn test_read_varint_mid_table() {
    let mut index = 2;
    assert_eq!(read_varint(&mut index, &[99, 99, 5, 77]), 5);
    assert_eq!(index, 3);
}

#[test]
fn test_read_signed_varint_sign_flag() {
    let mut index = 0;
    assert_eq!(read_signed_varint(&mut index, &[7]), -3);
    let mut index = 0;
    assert_eq!(read_signed_varint(&mut index, &[4]), 2);
    let mut index = 0;
    assert_eq!(read_signed_varint(&mut index, &[1]), 0);
    let mut index = 0;
    assert_eq!(read_signed_varint(&mut index, &[0]), 0);
}

#[test]
fn test_encode_varint_bytes() {
    assert_eq!(encode_varint(0), vec![0]);
    assert_eq!(encode_varint(63), vec![63]);
    assert_eq!(encode_varint(64), vec![64, 1]);
    assert_eq!(encode_varint(200), vec![64 + (200 % 64) as u8, 3]);
}

#[test]
fn test_unsigned_round_trip() {
    for v in [0u64, 1, 63, 64, 65, 4095, 4096, 123456789, 1 << 35] {
        let encoded = encode_varint(v);
        let mut index = 0;
        assert_eq!(read_varint(&mut index, &encoded), v);
        assert_eq!(index, encoded.len());
    }
}

#[test]
fn test_signed_round_trip_across_range() {
    let values: [i64; 10] = [
        -(1 << 30),
        -123456789,
        -64,
        -1,
        0,
        1,
        63,
        64,
        123456789,
        (1 << 30) - 1,
    ];
    for v in values {
        let encoded = encode_signed_varint(v);
        let mut index = 0;
        assert_eq!(read_signed_varint(&mut index, &encoded), v);
        assert_eq!(index, encoded.len());
    }
}

#[test]
fn test_varint_fits_bounds() {
    assert!(varint_fits(&[0], 0));
    assert!(varint_fits(&[65, 2], 0));
    // a continuation bit with nothing after it does not fit
    assert!(!varint_fits(&[64], 0));
    assert!(!varint_fits(&[65, 2], 2));
    // ten bytes is the longest accepted varint
    assert!(varint_fits(&[64, 64, 64, 64, 64, 64, 64, 64, 64, 0], 0));
    assert!(!varint_fits(&[64, 64, 64, 64, 64, 64, 64, 64, 64, 64, 0], 0));
}
