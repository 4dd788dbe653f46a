use explorer_harness::hex::{hex_decode, hex_encode, HexError};
use explorer_harness::text::{i64_dec, u64_dec};

#[test]
fn decimal_rendering_is_exact() {
    assert_eq!(u64_dec(0), "0");
    assert_eq!(u64_dec(7), "7");
    assert_eq!(u64_dec(10), "10");
    assert_eq!(u64_dec(1234567890), "1234567890");
    assert_eq!(u64_dec(u64::MAX), "18446744073709551615");
}

#[test]
fn signed_decimal_rendering_is_exact() {
    assert_eq!(i64_dec(0), "0");
    assert_eq!(i64_dec(42), "42");
    assert_eq!(i64_dec(-1), "-1");
    assert_eq!(i64_dec(-9000), "-9000");
    assert_eq!(i64_dec(i64::MAX), "9223372036854775807");
    assert_eq!(i64_dec(i64::MIN), "-9223372036854775808");
}

#[test]
fn hex_encoding_is_lowercase_two_digits_per_byte() {
    assert_eq!(hex_encode(&vec![]), "");
    assert_eq!(hex_encode(&vec![0x00, 0xff]), "00ff");
    assert_eq!(hex_encode(&vec![0xde, 0xad, 0xbe, 0xef]), "deadbeef");
    assert_eq!(hex_encode(&vec![0x01, 0x2a]), "012a");
}

#[test]
fn hex_decoding_accepts_both_cases() {
    assert_eq!(hex_decode(""), Ok(vec![]));
    assert_eq!(hex_decode("00ff"), Ok(vec![0x00, 0xff]));
    assert_eq!(hex_decode("DeAdBeEf"), Ok(vec![0xde, 0xad, 0xbe, 0xef]));
}

#[test]
fn hex_decoding_reports_odd_length_first() {
    assert_eq!(hex_decode("0"), Err(HexError::OddLength));
    assert_eq!(hex_decode("0g0"), Err(HexError::OddLength));
}

#[test]
fn hex_decoding_reports_the_first_bad_character() {
    assert_eq!(
        hex_decode("0g"),
        Err(HexError::InvalidCharacter { index: 1 })
    );
    assert_eq!(
        hex_decode("zz00"),
        Err(HexError::InvalidCharacter { index: 0 })
    );
    assert_eq!(
        hex_decode("00x0"),
        Err(HexError::InvalidCharacter { index: 2 })
    );
}

#[test]
fn hex_round_trip_returns_the_bytes() {
    let bytes = vec![0u8, 1, 2, 3, 15, 16, 127, 128, 200, 255];
    let text = hex_encode(&bytes);
    assert_eq!(hex_decode(&text), Ok(bytes));
}
