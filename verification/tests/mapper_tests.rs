//! Tests of the value mapper and the integer narrowing on trees built by
//! hand, without going through the parser.

use neon_bencode::mapper::map_entries;
use neon_bencode::mapper::map_value;
use neon_bencode::num::narrow_int;
use neon_bencode::value::BencodeValue;
use neon_bencode::value::DecodeError;
use neon_bencode::value::HostValue;

#[test]
fn maps_text_bytes() {
    let v = BencodeValue::Bytes(b"hello".to_vec());
    assert_eq!(map_value(&v), Ok(HostValue::Text("hello".to_string())));
}

#[test]
fn maps_binary_bytes() {
    let v = BencodeValue::Bytes(vec![0xFF, 0x00, 0xFE]);
    assert_eq!(map_value(&v), Ok(HostValue::Binary(vec![0xFF, 0x00, 0xFE])));
}

#[test]
fn maps_list_to_absent() {
    let v = BencodeValue::List(vec![BencodeValue::Int(1), BencodeValue::Int(2)]);
    assert_eq!(map_value(&v), Ok(HostValue::Absent));
}

#[test]
fn maps_empty_list_to_absent() {
    let v = BencodeValue::List(vec![]);
    assert_eq!(map_value(&v), Ok(HostValue::Absent));
}

#[test]
fn maps_entries_in_order() {
    let entries = vec![
        (b"z".to_vec(), BencodeValue::Int(1)),
        (b"a".to_vec(), BencodeValue::Int(2)),
    ];
    let out = map_entries(&entries).unwrap();
    assert_eq!(
        out,
        vec![
            ("z".to_string(), HostValue::Num(1)),
            ("a".to_string(), HostValue::Num(2)),
        ]
    );
}

#[test]
fn rejects_invalid_key() {
    let entries = vec![(vec![0xFF, 0xFE], BencodeValue::Int(1))];
    assert_eq!(map_entries(&entries), Err(DecodeError::InvalidKey));
}

#[test]
fn narrows_in_range_ints_exactly() {
    assert_eq!(narrow_int(0), 0);
    assert_eq!(narrow_int(-1), -1);
    assert_eq!(narrow_int(2147483647), 2147483647);
    assert_eq!(narrow_int(-2147483648), -2147483648);
}

#[test]
fn narrows_out_of_range_ints_by_wrapping() {
    assert_eq!(narrow_int(2147483648), -2147483648);
    assert_eq!(narrow_int(-2147483649), 2147483647);
    assert_eq!(narrow_int(4294967296), 0);
    assert_eq!(narrow_int(6442450944), -2147483648);
    assert_eq!(narrow_int(i64::MAX), -1);
    assert_eq!(narrow_int(i64::MIN), 0);
}
