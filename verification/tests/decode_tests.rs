//! End-to-end decode tests: raw bencode buffers in, host objects out.
//!
//! Dictionary entries come out in key order (the parser hands them out
//! sorted by key bytes), so expected objects are written in that order.

use neon_bencode::decode;
use neon_bencode::value::DecodeError;
use neon_bencode::value::HostValue;

#[test]
fn decodes_text_and_int() {
    let input = b"d3:fooi42e3:bar5:helloe".to_vec();
    let obj = decode(&input).unwrap();
    assert_eq!(
        obj,
        vec![
            ("bar".to_string(), HostValue::Text("hello".to_string())),
            ("foo".to_string(), HostValue::Num(42)),
        ]
    );
}

#[test]
fn binary_value_preserved() {
    let input = b"d3:key2:\xFF\xFEe".to_vec();
    let obj = decode(&input).unwrap();
    assert_eq!(obj, vec![("key".to_string(), HostValue::Binary(vec![0xFF, 0xFE]))]);
}

#[test]
fn nested_dict() {
    let input = b"d1:ad1:bi1eee".to_vec();
    let obj = decode(&input).unwrap();
    assert_eq!(
        obj,
        vec![(
            "a".to_string(),
            HostValue::Object(vec![("b".to_string(), HostValue::Num(1))]),
        )]
    );
}

#[test]
fn top_level_int_fails() {
    let input = b"i5e".to_vec();
    assert_eq!(decode(&input), Err(DecodeError::NotADictionary));
}

#[test]
fn top_level_list_fails() {
    let input = b"le".to_vec();
    assert_eq!(decode(&input), Err(DecodeError::NotADictionary));
}

#[test]
fn top_level_bytes_fails() {
    let input = b"3:abc".to_vec();
    assert_eq!(decode(&input), Err(DecodeError::NotADictionary));
}

#[test]
fn truncated_buffer_fails() {
    let input = b"d3:foo".to_vec();
    assert_eq!(decode(&input), Err(DecodeError::Parse));
}

#[test]
fn trailing_bytes_fail() {
    let input = b"i5ex".to_vec();
    assert_eq!(decode(&input), Err(DecodeError::Parse));
}

#[test]
fn empty_dict_decodes_to_empty_object() {
    let input = b"de".to_vec();
    assert_eq!(decode(&input), Ok(vec![]));
}

#[test]
fn utf8_value_becomes_text() {
    // value bytes C3 A9 are the two-byte UTF-8 encoding of e-acute
    let input = b"d1:k6:h\xC3\xA9lloe".to_vec();
    let obj = decode(&input).unwrap();
    assert_eq!(obj, vec![("k".to_string(), HostValue::Text("h\u{e9}llo".to_string()))]);
}

#[test]
fn binary_value_keeps_length_and_octets() {
    let input = b"d1:k5:\xC5\xE6\xBE\xE6\xF2e".to_vec();
    let obj = decode(&input).unwrap();
    match &obj[0].1 {
        HostValue::Binary(b) => {
            assert_eq!(b.len(), 5);
            assert_eq!(b, &vec![0xC5, 0xE6, 0xBE, 0xE6, 0xF2]);
        },
        other => panic!("expected a binary buffer, got {:?}", other),
    }
}

#[test]
fn in_range_ints_decode_exactly() {
    let input = b"d1:ai0e1:bi-1e1:ci2147483647e1:di-2147483648ee".to_vec();
    let obj = decode(&input).unwrap();
    assert_eq!(
        obj,
        vec![
            ("a".to_string(), HostValue::Num(0)),
            ("b".to_string(), HostValue::Num(-1)),
            ("c".to_string(), HostValue::Num(2147483647)),
            ("d".to_string(), HostValue::Num(-2147483648)),
        ]
    );
}

#[test]
fn out_of_range_ints_wrap() {
    let input = b"d1:ai2147483648e1:bi4294967296e1:ci-2147483649ee".to_vec();
    let obj = decode(&input).unwrap();
    assert_eq!(
        obj,
        vec![
            ("a".to_string(), HostValue::Num(-2147483648)),
            ("b".to_string(), HostValue::Num(0)),
            ("c".to_string(), HostValue::Num(2147483647)),
        ]
    );
}

#[test]
fn decode_is_deterministic() {
    let input = b"d1:ai9223372036854775807e1:b3:abce".to_vec();
    let first = decode(&input);
    let second = decode(&input);
    assert_eq!(first, second);
    assert_eq!(
        first.unwrap()[0],
        ("a".to_string(), HostValue::Num(-1)),
    );
}

#[test]
fn list_value_becomes_absent() {
    let input = b"d1:lli1ei2eee".to_vec();
    let obj = decode(&input).unwrap();
    assert_eq!(obj, vec![("l".to_string(), HostValue::Absent)]);
}

#[test]
fn depth_three_dicts_nest() {
    let input = b"d1:ad1:bd1:ci7eeee".to_vec();
    let obj = decode(&input).unwrap();
    assert_eq!(
        obj,
        vec![(
            "a".to_string(),
            HostValue::Object(vec![(
                "b".to_string(),
                HostValue::Object(vec![("c".to_string(), HostValue::Num(7))]),
            )]),
        )]
    );
}

#[test]
fn invalid_key_fails() {
    let input = b"d2:\xFF\xFEi1ee".to_vec();
    assert_eq!(decode(&input), Err(DecodeError::InvalidKey));
}

#[test]
fn nested_invalid_key_fails() {
    let input = b"d1:ad2:\xFF\xFEi1eee".to_vec();
    assert_eq!(decode(&input), Err(DecodeError::InvalidKey));
}

#[test]
fn duplicate_keys_fail() {
    let input = b"d1:ai1e1:ai2ee".to_vec();
    assert_eq!(decode(&input), Err(DecodeError::Parse));
}
