use caver::{decode, BlockNumber, Error};

#[test]
fn decode_latest() {
    assert_eq!(decode("latest"), Ok(BlockNumber::Latest));
}

#[test]
fn decode_earliest_and_pending() {
    assert_eq!(decode("earliest"), Ok(BlockNumber::Earliest));
    assert_eq!(decode("pending"), Ok(BlockNumber::Pending));
}

#[test]
fn decode_zero() {
    assert_eq!(decode("0x0"), Ok(BlockNumber::Number(0)));
}

#[test]
fn decode_hex_number() {
    assert_eq!(decode("0x1a"), Ok(BlockNumber::Number(26)));
    assert_eq!(decode("0x1A"), Ok(BlockNumber::Number(26)));
    assert_eq!(decode("0x001a"), Ok(BlockNumber::Number(26)));
}

#[test]
fn decode_largest_number() {
    assert_eq!(decode("0xffffffffffffffff"), Ok(BlockNumber::Number(u64::MAX)));
}

#[test]
fn decode_missing_prefix_fails() {
    assert!(matches!(decode("1a"), Err(Error::Decoder(_))));
    assert!(matches!(decode(""), Err(Error::Decoder(_))));
    assert!(matches!(decode("Latest"), Err(Error::Decoder(_))));
}

#[test]
fn decode_invalid_hex_fails() {
    assert!(matches!(decode("0xzz"), Err(Error::Decoder(_))));
    assert!(matches!(decode("0x"), Err(Error::Decoder(_))));
    assert!(matches!(decode("0x1g"), Err(Error::Decoder(_))));
}

#[test]
fn decode_overflow_fails() {
    assert!(matches!(decode("0x10000000000000000"), Err(Error::Decoder(_))));
}

#[test]
fn encode_tags() {
    assert_eq!(BlockNumber::Latest.encode(), "latest");
    assert_eq!(BlockNumber::Earliest.encode(), "earliest");
    assert_eq!(BlockNumber::Pending.encode(), "pending");
}

#[test]
fn encode_numbers() {
    assert_eq!(BlockNumber::Number(0).encode(), "0x0");
    assert_eq!(BlockNumber::Number(26).encode(), "0x1a");
    assert_eq!(BlockNumber::Number(256).encode(), "0x100");
    assert_eq!(BlockNumber::Number(u64::MAX).encode(), "0xffffffffffffffff");
}

#[test]
fn encode_decode_round_trip() {
    let all = [
        BlockNumber::Latest,
        BlockNumber::Earliest,
        BlockNumber::Pending,
        BlockNumber::Number(0),
        BlockNumber::Number(15),
        BlockNumber::Number(16),
        BlockNumber::Number(123456789),
        BlockNumber::Number(u64::MAX),
    ];
    for s in all {
        let text = s.encode();
        let back = decode(&text).unwrap();
        assert_eq!(back, s);
        assert_eq!(back.encode(), text);
    }
}
