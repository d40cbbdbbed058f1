use qq_history::protobuf::DecodeError;
use qq_history::protobuf::Protobuf;
use qq_history::protobuf::WireType;
use qq_history::value::Tree;
use qq_history::value::Value;

fn varint(mut v: u64) -> Vec<u8> {
    let mut out = Vec::new();
    while v >= 0x80 {
        out.push((v & 0x7f) as u8 | 0x80);
        v >>= 7;
    }
    out.push(v as u8);
    out
}

fn tag(id: u64, kind: u8) -> Vec<u8> {
    varint((id << 3) | kind as u64)
}

fn integer_field(id: u64, value: u64) -> Vec<u8> {
    let mut out = tag(id, 0);
    out.extend(varint(value));
    out
}

fn payload_field(id: u64, payload: &[u8]) -> Vec<u8> {
    let mut out = tag(id, 2);
    out.extend(varint(payload.len() as u64));
    out.extend_from_slice(payload);
    out
}

fn tree(fields: Vec<(u64, Value)>) -> Tree {
    Tree { fields: fields.into_iter().collect() }
}

#[test]
fn test_decode_varint() {
    let data = vec![0x96, 0x01]; // 150
    let (value, offset) = Protobuf::decode_varint(&data, 0).unwrap();
    assert_eq!(value, 150);
    assert_eq!(offset, 2);
}

#[test]
fn decode_varint_reads_from_an_offset() {
    let data = vec![0xff, 0x05, 0xac, 0x02];
    assert_eq!(Protobuf::decode_varint(&data, 1), Ok((5, 2)));
    assert_eq!(Protobuf::decode_varint(&data, 2), Ok((300, 4)));
}

#[test]
fn decode_varint_reads_the_largest_number() {
    let data = vec![0xff, 0xff, 0xff, 0xff, 0xff, 0xff, 0xff, 0xff, 0xff, 0x01];
    assert_eq!(Protobuf::decode_varint(&data, 0), Ok((u64::MAX, 10)));
}

#[test]
fn decode_varint_keeps_the_low_64_bits() {
    // the tenth byte carries seven bits, of which only the lowest fits
    let ten = vec![0x80, 0x80, 0x80, 0x80, 0x80, 0x80, 0x80, 0x80, 0x80, 0x7f];
    assert_eq!(Protobuf::decode_varint(&ten, 0), Ok((1 << 63, 10)));
    // an eleventh and a twelfth byte add nothing
    let twelve = vec![0x81, 0x80, 0x80, 0x80, 0x80, 0x80, 0x80, 0x80, 0x80, 0x80, 0xff, 0x7f];
    assert_eq!(Protobuf::decode_varint(&twelve, 0), Ok((1, 12)));
}

#[test]
fn decode_varint_fails_where_the_buffer_ends() {
    assert_eq!(Protobuf::decode_varint(&[], 0), Err(DecodeError::TruncatedVarint));
    assert_eq!(Protobuf::decode_varint(&[0x96], 0), Err(DecodeError::TruncatedVarint));
    assert_eq!(Protobuf::decode_varint(&[0x01], 1), Err(DecodeError::TruncatedVarint));
    assert_eq!(Protobuf::decode_varint(&[0x01], 7), Err(DecodeError::TruncatedVarint));
}

#[test]
fn decode_tag_splits_identifier_and_kind() {
    // field 1, length-delimited, then field 300, 32-bit
    let data = vec![0x0a, 0xe5, 0x12];
    assert_eq!(Protobuf::decode_tag(&data, 0), Ok((1, WireType::LengthDelimited, 1)));
    assert_eq!(Protobuf::decode_tag(&data, 1), Ok((300, WireType::Bit32, 3)));
    assert_eq!(Protobuf::decode_tag(&[0x08], 0), Ok((1, WireType::Varint, 1)));
    assert_eq!(Protobuf::decode_tag(&[0x09], 0), Ok((1, WireType::Bit64, 1)));
}

#[test]
fn decode_tag_keeps_the_whole_identifier() {
    // tag = (2^32 + 5) * 8 + 0
    let data = varint(((1u64 << 32) + 5) << 3);
    assert_eq!(Protobuf::decode_tag(&data, 0), Ok(((1 << 32) + 5, WireType::Varint, data.len())));
    // the largest tag of a 32-bit value: all 61 bits of the identifier are set
    let data = varint(u64::MAX - 2);
    assert_eq!(
        Protobuf::decode_tag(&data, 0),
        Ok(((1 << 61) - 1, WireType::Bit32, data.len()))
    );
}

#[test]
fn identifiers_that_differ_above_32_bits_stay_apart() {
    let mut data = integer_field(1, 10);
    data.extend(integer_field(4294967297, 20));
    assert_eq!(
        Protobuf::deserialize(&data),
        Ok(tree(vec![(1, Value::Integer(10)), (4294967297, Value::Integer(20))]))
    );
}

#[test]
fn decode_tag_rejects_unknown_kinds() {
    for code in [3u8, 4, 6, 7] {
        assert_eq!(
            Protobuf::decode_tag(&[0x08 | code], 0),
            Err(DecodeError::UnsupportedWireType(code))
        );
    }
    assert_eq!(Protobuf::decode_tag(&[0x80], 0), Err(DecodeError::TruncatedVarint));
}

#[test]
fn wire_type_codes() {
    assert_eq!(WireType::from_u8(0), Ok(WireType::Varint));
    assert_eq!(WireType::from_u8(1), Ok(WireType::Bit64));
    assert_eq!(WireType::from_u8(2), Ok(WireType::LengthDelimited));
    assert_eq!(WireType::from_u8(5), Ok(WireType::Bit32));
    assert_eq!(WireType::from_u8(3), Err(DecodeError::UnsupportedWireType(3)));
    assert_eq!(WireType::from_u8(200), Err(DecodeError::UnsupportedWireType(200)));
}

#[test]
fn deserialize_reads_scalars() {
    // 1: varint 150; 2: fixed64; 3: fixed32
    let data = vec![
        0x08, 0x96, 0x01, 0x11, 0x08, 0x07, 0x06, 0x05, 0x04, 0x03, 0x02, 0x01, 0x1d, 0x04, 0x03,
        0x02, 0x01,
    ];
    assert_eq!(
        Protobuf::deserialize(&data),
        Ok(tree(vec![
            (1, Value::Integer(150)),
            (2, Value::Integer(0x0102030405060708)),
            (3, Value::Integer(0x01020304)),
        ]))
    );
}

#[test]
fn deserialize_of_nothing_is_an_empty_message() {
    assert_eq!(Protobuf::deserialize(&[]), Ok(tree(vec![])));
}

#[test]
fn deserialize_is_deterministic() {
    let mut data = integer_field(1, 7);
    data.extend(payload_field(2, b"hello"));
    data.extend(payload_field(3, &[0xff, 0xfe]));
    data.extend(payload_field(4, &integer_field(9, 9)));
    let first = Protobuf::deserialize(&data);
    let second = Protobuf::deserialize(&data.clone());
    assert!(first.is_ok());
    assert_eq!(first, second);
}

#[test]
fn integers_survive_a_round_trip() {
    let pairs: Vec<(u64, u64)> = vec![
        (1, 0),
        (2, 127),
        (3, 128),
        (16, 300),
        (2047, u32::MAX as u64),
        (u32::MAX as u64 + 1, 5),
        ((1 << 61) - 1, u64::MAX),
    ];
    let mut data = Vec::new();
    for (id, value) in &pairs {
        data.extend(integer_field(*id, *value));
    }
    let decoded = Protobuf::deserialize(&data).unwrap();
    assert_eq!(decoded.fields.len(), pairs.len());
    for (id, value) in &pairs {
        assert_eq!(decoded.get(*id), Some(&Value::Integer(*value)));
    }
}

#[test]
fn a_field_seen_three_times_becomes_an_array() {
    let mut data = integer_field(4, 10);
    data.extend(integer_field(5, 99));
    data.extend(integer_field(4, 20));
    data.extend(integer_field(4, 30));
    assert_eq!(
        Protobuf::deserialize(&data),
        Ok(tree(vec![
            (
                4,
                Value::Array(vec![Value::Integer(10), Value::Integer(20), Value::Integer(30)])
            ),
            (5, Value::Integer(99)),
        ]))
    );
}

#[test]
fn a_field_seen_twice_becomes_an_array_of_two() {
    let mut data = payload_field(1, b"one");
    data.extend(payload_field(1, b"two"));
    assert_eq!(
        Protobuf::deserialize(&data),
        Ok(tree(vec![(
            1,
            Value::Array(vec![Value::String("one".to_string()), Value::String("two".to_string())])
        )]))
    );
}

#[test]
fn a_payload_that_is_a_message_becomes_a_tree() {
    let data = payload_field(1, &integer_field(1, 1));
    assert_eq!(
        Protobuf::deserialize(&data),
        Ok(tree(vec![(1, Value::Tree(tree(vec![(1, Value::Integer(1))])))]))
    );
}

#[test]
fn a_payload_that_is_only_text_becomes_a_string() {
    // "hello" is no message: its third byte names a wire type that does not exist
    let data = payload_field(1, b"hello");
    assert_eq!(
        Protobuf::deserialize(&data),
        Ok(tree(vec![(1, Value::String("hello".to_string()))]))
    );
    let data = payload_field(2, "你好".as_bytes());
    assert_eq!(
        Protobuf::deserialize(&data),
        Ok(tree(vec![(2, Value::String("你好".to_string()))]))
    );
}

#[test]
fn a_payload_that_is_neither_becomes_bytes() {
    let data = payload_field(1, &[0xff, 0xff]);
    assert_eq!(
        Protobuf::deserialize(&data),
        Ok(tree(vec![(1, Value::Bytes("//8=".to_string()))]))
    );
}

#[test]
fn text_that_is_also_a_message_becomes_a_tree() {
    // "\x08\x01" is valid UTF-8 and a message: the message wins
    let data = payload_field(7, &[0x08, 0x01]);
    assert_eq!(
        Protobuf::deserialize(&data),
        Ok(tree(vec![(7, Value::Tree(tree(vec![(1, Value::Integer(1))])))]))
    );
}

#[test]
fn an_empty_payload_becomes_an_empty_tree() {
    let data = payload_field(3, &[]);
    assert_eq!(Protobuf::deserialize(&data), Ok(tree(vec![(3, Value::Tree(tree(vec![])))])));
}

#[test]
fn nested_messages_are_decoded_level_by_level() {
    let inner = payload_field(2, b"deep");
    let middle = payload_field(1, &inner);
    let data = payload_field(1, &middle);
    let decoded = Protobuf::deserialize(&data).unwrap();
    let found = decoded.get(1).and_then(|v| v.get(1)).and_then(|v| v.get(2));
    assert_eq!(found, Some(&Value::String("deep".to_string())));
}

#[test]
fn an_overlong_payload_is_a_failure() {
    // field 1 declares five bytes, two follow
    let data = vec![0x0a, 0x05, 0x61, 0x62];
    assert_eq!(Protobuf::deserialize(&data), Err(DecodeError::TruncatedPayload));
    // the declared length is far beyond any buffer
    let mut data = tag(1, 2);
    data.extend(varint(u64::MAX));
    data.push(0x00);
    assert_eq!(Protobuf::deserialize(&data), Err(DecodeError::TruncatedPayload));
    // the failure comes after fields that decoded well
    let mut data = integer_field(1, 1);
    data.extend(vec![0x12, 0x03, 0x61]);
    assert_eq!(Protobuf::deserialize(&data), Err(DecodeError::TruncatedPayload));
}

#[test]
fn truncated_values_are_failures() {
    assert_eq!(Protobuf::deserialize(&[0x08]), Err(DecodeError::TruncatedVarint));
    assert_eq!(Protobuf::deserialize(&[0x08, 0x80]), Err(DecodeError::TruncatedVarint));
    assert_eq!(
        Protobuf::deserialize(&[0x09, 1, 2, 3, 4, 5, 6, 7]),
        Err(DecodeError::TruncatedFixed64)
    );
    assert_eq!(Protobuf::deserialize(&[0x0d, 1, 2, 3]), Err(DecodeError::TruncatedFixed32));
    assert_eq!(Protobuf::deserialize(&[0x0a]), Err(DecodeError::TruncatedVarint));
    assert_eq!(Protobuf::deserialize(&[0x0a, 0x80]), Err(DecodeError::TruncatedVarint));
}

#[test]
fn deserialize_rejects_unknown_kinds() {
    assert_eq!(Protobuf::deserialize(&[0x0b]), Err(DecodeError::UnsupportedWireType(3)));
    let mut data = integer_field(1, 1);
    data.push(0x0f);
    assert_eq!(Protobuf::deserialize(&data), Err(DecodeError::UnsupportedWireType(7)));
}

#[test]
fn a_failure_inside_a_payload_is_no_failure_of_the_message() {
    // the payload declares a length it does not have: it is text, then
    let data = payload_field(1, &[0x0a, 0x05, 0x61]);
    assert_eq!(
        Protobuf::deserialize(&data),
        Ok(tree(vec![(1, Value::String("\n\u{5}a".to_string()))]))
    );
}

fn nested(levels: usize) -> Vec<u8> {
    let mut data = integer_field(1, 7);
    for _ in 0..levels {
        data = payload_field(1, &data);
    }
    data
}

fn innermost(tree: &Tree, levels: usize) -> Option<&Value> {
    let mut found = tree.get(1)?;
    for _ in 1..levels {
        found = found.get(1)?;
    }
    Some(found)
}

#[test]
fn messages_are_followed_a_hundred_levels_deep() {
    let decoded = Protobuf::deserialize(&nested(100)).unwrap();
    assert_eq!(
        innermost(&decoded, 100),
        Some(&Value::Tree(tree(vec![(1, Value::Integer(7))])))
    );
}

#[test]
fn a_payload_below_the_hundredth_level_is_not_tried_as_a_message() {
    let decoded = Protobuf::deserialize(&nested(101)).unwrap();
    assert_eq!(innermost(&decoded, 101), Some(&Value::String("\u{8}\u{7}".to_string())));
}

#[test]
fn deserialize_within_follows_as_deep_as_it_is_told() {
    let data = nested(2);
    assert_eq!(
        Protobuf::deserialize_within(&data, 2),
        Ok(tree(vec![(
            1,
            Value::Tree(tree(vec![(1, Value::Tree(tree(vec![(1, Value::Integer(7))])))]))
        )]))
    );
    assert_eq!(
        Protobuf::deserialize_within(&data, 1),
        Ok(tree(vec![(1, Value::Tree(tree(vec![(1, Value::String("\u{8}\u{7}".to_string()))])))]))
    );
    assert_eq!(
        Protobuf::deserialize_within(&data, 0),
        Ok(tree(vec![(1, Value::String("\n\u{2}\u{8}\u{7}".to_string()))]))
    );
    assert_eq!(Protobuf::deserialize_within(&[0x0a, 0x05], 0), Err(DecodeError::TruncatedPayload));
}
