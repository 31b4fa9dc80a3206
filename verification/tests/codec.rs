use ethkey_gen::error::Error;
use ethkey_gen::error::HexDecodeFailureKind;
use ethkey_gen::error::IntegerParseFailureKind;
use ethkey_gen::hex::decode_hex;
use ethkey_gen::hex::encode_hex;
use ethkey_gen::numparse::parse_usize;

use rustc_serialize::hex::FromHex;
use rustc_serialize::hex::ToHex;

#[test]
fn decode_simple_pairs() {
    assert_eq!(decode_hex("0102ff").unwrap(), vec![0x01, 0x02, 0xff]);
    assert_eq!(decode_hex("DeadBeef").unwrap(), vec![0xde, 0xad, 0xbe, 0xef]);
    assert_eq!(decode_hex("").unwrap(), Vec::<u8>::new());
}

#[test]
fn decode_skips_whitespace() {
    assert_eq!(decode_hex("a1 b2\nc3\t d4\r").unwrap(), vec![0xa1, 0xb2, 0xc3, 0xd4]);
}

#[test]
fn decode_rejects_invalid_character() {
    let err = decode_hex("zz").unwrap_err();
    assert_eq!(
        err,
        Error::HexDecodeFailure(HexDecodeFailureKind::InvalidCharacter { byte: b'z', index: 0 })
    );
    let err = decode_hex("ab0g").unwrap_err();
    assert_eq!(
        err,
        Error::HexDecodeFailure(HexDecodeFailureKind::InvalidCharacter { byte: b'g', index: 3 })
    );
}

#[test]
fn decode_rejects_odd_digit_count() {
    let err = decode_hex("abc").unwrap_err();
    assert_eq!(err, Error::HexDecodeFailure(HexDecodeFailureKind::OddDigitCount));
}

#[test]
fn encode_lowercase_pairs() {
    assert_eq!(encode_hex(&[0xde, 0xad, 0x00, 0x0f]), "dead000f");
    assert_eq!(encode_hex(&[]), "");
}

#[test]
fn codec_round_trip() {
    let bytes: Vec<u8> = (0u16..256).map(|b| b as u8).collect();
    let text = encode_hex(&bytes);
    assert_eq!(decode_hex(&text).unwrap(), bytes);
}

#[test]
fn codec_agrees_with_reference_hex() {
    let bytes: Vec<u8> = (0u16..256).map(|b| (b as u8).wrapping_mul(37)).collect();
    assert_eq!(encode_hex(&bytes), bytes.to_hex());
    let text = bytes.to_hex();
    assert_eq!(decode_hex(&text).unwrap(), text.from_hex().unwrap());
}

#[test]
fn parse_plain_and_signed() {
    assert_eq!(parse_usize("100000").unwrap(), 100000);
    assert_eq!(parse_usize("+42").unwrap(), 42);
    assert_eq!(parse_usize("0").unwrap(), 0);
}

#[test]
fn parse_rejects_empty() {
    assert_eq!(
        parse_usize("").unwrap_err(),
        Error::IntegerParseFailure(IntegerParseFailureKind::Empty)
    );
}

#[test]
fn parse_rejects_invalid_digits() {
    assert_eq!(
        parse_usize("12x").unwrap_err(),
        Error::IntegerParseFailure(IntegerParseFailureKind::InvalidDigit)
    );
    assert_eq!(
        parse_usize("-3").unwrap_err(),
        Error::IntegerParseFailure(IntegerParseFailureKind::InvalidDigit)
    );
    assert_eq!(
        parse_usize("+").unwrap_err(),
        Error::IntegerParseFailure(IntegerParseFailureKind::InvalidDigit)
    );
}

#[test]
fn parse_rejects_overflow() {
    assert_eq!(
        parse_usize("99999999999999999999999999").unwrap_err(),
        Error::IntegerParseFailure(IntegerParseFailureKind::Overflow)
    );
}

#[test]
fn parse_agrees_with_from_str_radix() {
    for s in ["0", "7", "100000", "+815", "18446744073709551615", "18446744073709551616", "", "4 4", "-1", "+"] {
        let ours = parse_usize(s).ok();
        let std_result = usize::from_str_radix(s, 10).ok();
        assert_eq!(ours, std_result, "input {:?}", s);
    }
}

#[test]
fn error_messages_are_single_lines() {
    let errors = [
        Error::HexDecodeFailure(HexDecodeFailureKind::OddDigitCount),
        Error::HexDecodeFailure(HexDecodeFailureKind::InvalidCharacter { byte: b'z', index: 0 }),
        Error::IntegerParseFailure(IntegerParseFailureKind::Empty),
        Error::IntegerParseFailure(IntegerParseFailureKind::InvalidDigit),
        Error::IntegerParseFailure(IntegerParseFailureKind::Overflow),
    ];
    for e in errors {
        let message = e.message();
        assert!(!message.is_empty());
        assert!(!message.contains('\n'));
    }
}
