use webproof::hexcode::hex_decode;
use webproof::hexcode::hex_encode;

#[test]
fn encode_matches_reference() {
    let cases: Vec<Vec<u8>> = vec![
        vec![],
        vec![0x00],
        vec![0xff],
        vec![0x48, 0x65, 0x6c, 0x6c, 0x6f],
        (0u8..=255u8).collect(),
    ];
    for bytes in cases {
        assert_eq!(hex_encode(&bytes), hex::encode(&bytes));
    }
}

#[test]
fn decode_matches_reference() {
    let s = "48656c6c6f20576f726c64";
    assert_eq!(hex_decode(s).unwrap(), hex::decode(s).unwrap());
}

#[test]
fn round_trip_returns_input() {
    let cases: Vec<Vec<u8>> = vec![
        vec![],
        vec![0x00, 0x01, 0xfe, 0xff],
        (0u8..=255u8).collect(),
    ];
    for bytes in cases {
        let encoded = hex_encode(&bytes);
        assert_eq!(hex_decode(&encoded).unwrap(), bytes);
    }
}

#[test]
fn decode_accepts_upper_case() {
    assert_eq!(hex_decode("DEADbeef").unwrap(), vec![0xde, 0xad, 0xbe, 0xef]);
}

#[test]
fn decode_rejects_odd_length() {
    assert!(hex_decode("abc").is_none());
}

#[test]
fn decode_rejects_non_hex_character() {
    assert!(hex_decode("zz").is_none());
}
