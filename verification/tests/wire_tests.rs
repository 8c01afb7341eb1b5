use amzn_scraper::wire::{
    decode_key, decode_product_code, decode_varint, skip_field, AmznScrapingRequest, WireError,
    MAX_DEPTH,
};
use prost::encoding::{encode_key, encode_varint, WireType};

fn encoded(codes: &[&str]) -> Vec<u8> {
    let values: Vec<String> = codes.iter().map(|c| c.to_string()).collect();
    let mut buf = Vec::new();
    prost::encoding::string::encode_repeated(1, &values, &mut buf);
    buf
}

fn codes_of(bytes: &[u8]) -> Result<Vec<String>, WireError> {
    AmznScrapingRequest::decode(bytes).map(|request| request.product_codes)
}

#[test]
fn empty_message_is_the_empty_request() {
    assert_eq!(codes_of(&[]), Ok(vec![]));
}

#[test]
fn product_codes_come_out_in_order() {
    let bytes = encoded(&["B0BDHV5PX7", "B000000001", "B0BDHV5PX7"]);
    assert_eq!(
        codes_of(&bytes),
        Ok(vec!["B0BDHV5PX7".to_string(), "B000000001".to_string(), "B0BDHV5PX7".to_string()])
    );
}

#[test]
fn one_product_code_byte_for_byte() {
    let bytes = [0x0a, 0x03, b'a', b'b', b'c'];
    assert_eq!(codes_of(&bytes), Ok(vec!["abc".to_string()]));
    assert_eq!(encoded(&["abc"]), bytes);
}

#[test]
fn empty_and_non_ascii_codes_are_kept() {
    let bytes = encoded(&["", "h\u{e9}llo \u{1f600}", ""]);
    assert_eq!(
        codes_of(&bytes),
        Ok(vec!["".to_string(), "h\u{e9}llo \u{1f600}".to_string(), "".to_string()])
    );
}

#[test]
fn long_code_with_two_byte_length() {
    let long = "x".repeat(300);
    let bytes = encoded(&[&long]);
    assert_eq!(codes_of(&bytes), Ok(vec![long]));
}

#[test]
fn varint_values_agree_with_the_encoder() {
    for value in [0u64, 1, 127, 128, 300, 16383, 16384, u64::from(u32::MAX), 1 << 56, u64::MAX] {
        let mut buf = Vec::new();
        encode_varint(value, &mut buf);
        let len = buf.len();
        buf.push(0xff);
        assert_eq!(decode_varint(&buf, 0), Ok((value, len)));
    }
}

#[test]
fn varint_at_an_offset() {
    assert_eq!(decode_varint(&[0xff, 0xac, 0x02, 0x00], 1), Ok((300, 3)));
}

#[test]
fn varint_need_not_be_minimal() {
    assert_eq!(decode_varint(&[0x80, 0x00], 0), Ok((0, 2)));
    assert_eq!(decode_varint(&[0x81, 0x80, 0x80, 0x00], 0), Ok((1, 4)));
}

#[test]
fn varint_faults() {
    assert_eq!(decode_varint(&[], 0), Err(WireError::InvalidVarint));
    assert_eq!(decode_varint(&[0x01], 1), Err(WireError::InvalidVarint));
    assert_eq!(decode_varint(&[0x01], 7), Err(WireError::InvalidVarint));
    assert_eq!(decode_varint(&[0x80], 0), Err(WireError::InvalidVarint));
    assert_eq!(decode_varint(&[0xff; 9], 0), Err(WireError::InvalidVarint));
    let mut overflow = vec![0xff; 9];
    overflow.push(0x02);
    assert_eq!(decode_varint(&overflow, 0), Err(WireError::InvalidVarint));
    let mut eleven = vec![0x80; 10];
    eleven.push(0x00);
    assert_eq!(decode_varint(&eleven, 0), Err(WireError::InvalidVarint));
    let mut largest = vec![0xff; 9];
    largest.push(0x01);
    assert_eq!(decode_varint(&largest, 0), Ok((u64::MAX, 10)));
}

#[test]
fn key_holds_tag_and_wire_type() {
    let mut buf = Vec::new();
    encode_key(1, WireType::LengthDelimited, &mut buf);
    assert_eq!(decode_key(&buf, 0), Ok((1, 2, 1)));
    let mut buf = Vec::new();
    encode_key(300, WireType::ThirtyTwoBit, &mut buf);
    assert_eq!(decode_key(&buf, 0), Ok((300, 5, 2)));
    let mut buf = Vec::new();
    encode_key((1 << 29) - 1, WireType::Varint, &mut buf);
    assert_eq!(decode_key(&buf, 0), Ok(((1 << 29) - 1, 0, 5)));
}

#[test]
fn key_faults() {
    assert_eq!(decode_key(&[], 0), Err(WireError::InvalidVarint));
    assert_eq!(decode_key(&[0x80, 0x80, 0x80, 0x80, 0x10], 0), Err(WireError::InvalidKey));
    assert_eq!(decode_key(&[0x0e], 0), Err(WireError::InvalidWireType));
    assert_eq!(decode_key(&[0x0f], 0), Err(WireError::InvalidWireType));
    assert_eq!(decode_key(&[0x02], 0), Err(WireError::InvalidTag));
    assert_eq!(decode_key(&[0x06], 0), Err(WireError::InvalidWireType));
}

#[test]
fn product_code_faults() {
    assert_eq!(decode_product_code(&[0x01, b'a'], 0, 0), Err(WireError::UnexpectedWireType));
    assert_eq!(decode_product_code(&[], 0, 2), Err(WireError::InvalidVarint));
    assert_eq!(decode_product_code(&[0x02, b'a'], 0, 2), Err(WireError::BufferUnderflow));
    assert_eq!(decode_product_code(&[0x01, 0xff], 0, 2), Err(WireError::InvalidUtf8));
    assert_eq!(decode_product_code(&[0x02, 0xc3, 0x28], 0, 2), Err(WireError::InvalidUtf8));
    assert_eq!(decode_product_code(&[0x03, 0xed, 0xa0, 0x80], 0, 2), Err(WireError::InvalidUtf8));
    assert_eq!(decode_product_code(&[0x02, 0xc0, 0x80], 0, 2), Err(WireError::InvalidUtf8));
    assert_eq!(
        decode_product_code(&[0x02, 0xc3, 0xa9, 0x00], 0, 2),
        Ok(("\u{e9}".to_string(), 3))
    );
}

#[test]
fn message_faults() {
    assert_eq!(codes_of(&[0x0a]), Err(WireError::InvalidVarint));
    assert_eq!(codes_of(&[0x0a, 0x05, b'a']), Err(WireError::BufferUnderflow));
    assert_eq!(codes_of(&[0x08, 0x01]), Err(WireError::UnexpectedWireType));
    assert_eq!(codes_of(&[0x0d, 0, 0, 0, 0]), Err(WireError::UnexpectedWireType));
    assert_eq!(codes_of(&[0x0a, 0x01, 0x80]), Err(WireError::InvalidUtf8));
    assert_eq!(codes_of(&[0x00]), Err(WireError::InvalidTag));
    assert_eq!(codes_of(&[0x17]), Err(WireError::InvalidWireType));
    assert_eq!(codes_of(&[0x14]), Err(WireError::UnexpectedEndGroup));
    assert_eq!(codes_of(&[0x80]), Err(WireError::InvalidVarint));
    assert_eq!(codes_of(&[0x0a, 0x01, b'a', 0x0a]), Err(WireError::InvalidVarint));
}

#[test]
fn unknown_fields_are_skipped() {
    let mut bytes = Vec::new();
    encode_key(2, WireType::Varint, &mut bytes);
    encode_varint(1 << 40, &mut bytes);
    bytes.extend(encoded(&["first"]));
    encode_key(3, WireType::SixtyFourBit, &mut bytes);
    bytes.extend([1, 2, 3, 4, 5, 6, 7, 8]);
    encode_key(4, WireType::ThirtyTwoBit, &mut bytes);
    bytes.extend([1, 2, 3, 4]);
    encode_key(5, WireType::LengthDelimited, &mut bytes);
    encode_varint(3, &mut bytes);
    bytes.extend([0xff, 0xfe, 0xfd]);
    bytes.extend(encoded(&["second"]));
    encode_key(6, WireType::StartGroup, &mut bytes);
    encode_key(1, WireType::LengthDelimited, &mut bytes);
    encode_varint(2, &mut bytes);
    bytes.extend([b'n', b'o']);
    encode_key(7, WireType::StartGroup, &mut bytes);
    encode_key(7, WireType::EndGroup, &mut bytes);
    encode_key(6, WireType::EndGroup, &mut bytes);
    bytes.extend(encoded(&["third"]));
    assert_eq!(
        codes_of(&bytes),
        Ok(vec!["first".to_string(), "second".to_string(), "third".to_string()])
    );
}

#[test]
fn skipped_field_faults() {
    assert_eq!(codes_of(&[0x11, 1, 2, 3]), Err(WireError::BufferUnderflow));
    assert_eq!(codes_of(&[0x15, 1, 2, 3]), Err(WireError::BufferUnderflow));
    assert_eq!(codes_of(&[0x12, 0x02, 1]), Err(WireError::BufferUnderflow));
    assert_eq!(codes_of(&[0x10]), Err(WireError::InvalidVarint));
    assert_eq!(codes_of(&[0x13]), Err(WireError::InvalidVarint));
    assert_eq!(codes_of(&[0x13, 0x1c]), Err(WireError::UnexpectedEndGroup));
    assert_eq!(codes_of(&[0x13, 0x14]), Ok(vec![]));
}

#[test]
fn skip_field_returns_the_position_after_the_field() {
    assert_eq!(skip_field(&[9, 0xac, 0x02, 7], 1, 0, 2, MAX_DEPTH), Ok(3));
    assert_eq!(skip_field(&[0; 10], 1, 1, 2, MAX_DEPTH), Ok(9));
    assert_eq!(skip_field(&[0; 10], 1, 5, 2, MAX_DEPTH), Ok(5));
    assert_eq!(skip_field(&[0x03, 1, 2, 3, 4], 0, 2, 2, MAX_DEPTH), Ok(4));
    assert_eq!(skip_field(&[0x14], 0, 3, 2, MAX_DEPTH), Ok(1));
    assert_eq!(skip_field(&[0x14], 0, 4, 2, MAX_DEPTH), Err(WireError::UnexpectedEndGroup));
    assert_eq!(skip_field(&[0x00], 0, 0, 2, 0), Err(WireError::RecursionLimit));
    assert_eq!(skip_field(&[], 0, 1, 2, MAX_DEPTH), Err(WireError::BufferUnderflow));
}

fn nested_groups(depth: usize) -> Vec<u8> {
    let mut bytes = Vec::new();
    for _ in 0..depth {
        encode_key(2, WireType::StartGroup, &mut bytes);
    }
    for _ in 0..depth {
        encode_key(2, WireType::EndGroup, &mut bytes);
    }
    bytes
}

#[test]
fn groups_nest_up_to_the_limit() {
    assert_eq!(codes_of(&nested_groups(1)), Ok(vec![]));
    assert_eq!(codes_of(&nested_groups(100)), Ok(vec![]));
    assert_eq!(codes_of(&nested_groups(101)), Err(WireError::RecursionLimit));
}
