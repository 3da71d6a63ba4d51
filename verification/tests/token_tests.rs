use nusc_tables::token::{
    decode_hex_nibble, decode_required_token, decode_token, encode_hex, parse_hex, Token,
    TokenError,
};

#[test]
fn nibble_values() {
    assert_eq!(decode_hex_nibble(b'0'), Some(0));
    assert_eq!(decode_hex_nibble(b'9'), Some(9));
    assert_eq!(decode_hex_nibble(b'a'), Some(10));
    assert_eq!(decode_hex_nibble(b'f'), Some(15));
    assert_eq!(decode_hex_nibble(b'A'), Some(10));
    assert_eq!(decode_hex_nibble(b'F'), Some(15));
    assert_eq!(decode_hex_nibble(b'g'), None);
    assert_eq!(decode_hex_nibble(b' '), None);
}

#[test]
fn encode_is_canonical_lowercase() {
    let t: Token = 0x00112233445566778899aabbccddeeff;
    let enc = encode_hex(t);
    assert_eq!(enc.as_slice(), b"00112233445566778899aabbccddeeff".as_slice());
}

#[test]
fn encode_zero_and_max() {
    assert_eq!(encode_hex(0).as_slice(), b"00000000000000000000000000000000".as_slice());
    assert_eq!(encode_hex(u128::MAX).as_slice(), b"ffffffffffffffffffffffffffffffff".as_slice());
}

#[test]
fn round_trip_decode_of_encode() {
    for &t in &[0u128, 1, 0xdeadbeef, u128::MAX, 0x0123456789abcdef0123456789abcdef] {
        let enc = encode_hex(t);
        assert_eq!(parse_hex(&enc), Some(t));
        assert_eq!(decode_token(&enc), Ok(Some(t)));
        assert_eq!(decode_required_token(&enc), Ok(t));
    }
}

#[test]
fn parse_hex_accepts_uppercase() {
    assert_eq!(parse_hex(b"00112233445566778899AABBCCDDEEFF"),
        Some(0x00112233445566778899aabbccddeeffu128));
}

#[test]
fn parse_hex_rejects_wrong_length_and_bad_digits() {
    assert_eq!(parse_hex(b""), None);
    assert_eq!(parse_hex(b"0011223344556677"), None);
    assert_eq!(parse_hex(b"00112233445566778899aabbccddeef"), None);
    assert_eq!(parse_hex(b"00112233445566778899aabbccddeeff0"), None);
    assert_eq!(parse_hex(b"00112233445566778899aabbccddeefg"), None);
}

#[test]
fn decode_token_empty_is_absent() {
    assert_eq!(decode_token(b""), Ok(None));
}

#[test]
fn decode_token_wrong_length_is_malformed() {
    assert_eq!(decode_token(b"ab"), Err(TokenError::Malformed));
    assert_eq!(decode_token(b"00112233445566778899aabbccddeef"), Err(TokenError::Malformed));
    assert_eq!(decode_token(b"00112233445566778899aabbccddeeff0"), Err(TokenError::Malformed));
}

#[test]
fn decode_token_bad_digit_is_malformed() {
    assert_eq!(decode_token(b"zz112233445566778899aabbccddeeff"), Err(TokenError::Malformed));
}

#[test]
fn decode_required_token_rejects_bad_input() {
    assert_eq!(decode_required_token(b""), Err(TokenError::Malformed));
    assert_eq!(decode_required_token(b"abc"), Err(TokenError::Malformed));
    assert_eq!(decode_required_token(b"zz112233445566778899aabbccddeeff"),
        Err(TokenError::Malformed));
}
