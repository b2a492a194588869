//! Tests for the tag/value codec: decoding native tagged values and the
//! typed container used when writing values back.

use librpm::internal::tag::{Tag, TagClass, TagType};
use librpm::internal::td::{decode, RawPayload, RawTagData, TagContainer, TagData};
use librpm::ErrorKind;

fn raw_bytes(type_code: u32, count: u32, bytes: Vec<u8>) -> RawTagData {
    RawTagData {
        type_code,
        count,
        data: Some(RawPayload::Bytes(bytes)),
    }
}

fn raw_strings(type_code: u32, count: u32, strings: Vec<Vec<u8>>) -> RawTagData {
    RawTagData {
        type_code,
        count,
        data: Some(RawPayload::Strings(strings)),
    }
}

#[test]
fn decode_null() {
    let raw = RawTagData {
        type_code: 0,
        count: 0,
        data: None,
    };
    assert!(matches!(decode(&raw), Ok(TagData::Null)));
}

#[test]
fn decode_string_ascii() {
    let raw = raw_strings(TagType::STRING.code(), 1, vec![b"acl".to_vec()]);
    match decode(&raw) {
        Ok(TagData::Str(s)) => assert_eq!(s, "acl"),
        other => panic!("expected Str, got {:?}", other),
    }
}

#[test]
fn decode_string_invalid_utf8_is_refused() {
    let raw = raw_strings(6, 1, vec![vec![0xFF, 0xFE]]);
    let e = decode(&raw).unwrap_err();
    assert_eq!(e.kind(), ErrorKind::Decode);
}

#[test]
fn decode_string_null_data_is_refused() {
    let raw = RawTagData {
        type_code: 6,
        count: 1,
        data: None,
    };
    let e = decode(&raw).unwrap_err();
    assert_eq!(e.kind(), ErrorKind::Decode);
}

#[test]
fn decode_string_wrong_payload_shape_is_refused() {
    // A string-typed value whose payload is raw bytes is a type mismatch.
    let raw = raw_bytes(6, 1, b"acl".to_vec());
    let e = decode(&raw).unwrap_err();
    assert_eq!(e.kind(), ErrorKind::Decode);
}

#[test]
fn decode_unknown_type_code_is_refused() {
    let raw = raw_bytes(42, 1, vec![0]);
    let e = decode(&raw).unwrap_err();
    assert_eq!(e.kind(), ErrorKind::Decode);
}

#[test]
fn decode_bin_takes_exactly_count_bytes() {
    let raw = raw_bytes(TagType::BIN.code(), 3, vec![1, 2, 3]);
    match decode(&raw) {
        Ok(TagData::Bin(v)) => assert_eq!(v, vec![1, 2, 3]),
        other => panic!("expected Bin, got {:?}", other),
    }
    // A count that disagrees with the payload length is refused, never
    // clamped.
    let raw = raw_bytes(7, 2, vec![1, 2, 3]);
    assert_eq!(decode(&raw).unwrap_err().kind(), ErrorKind::Decode);
}

#[test]
fn decode_char_array() {
    let raw = raw_bytes(TagType::CHAR.code(), 2, vec![b'a', b'z']);
    match decode(&raw) {
        Ok(TagData::Char(v)) => assert_eq!(v, vec![b'a', b'z']),
        other => panic!("expected Char, got {:?}", other),
    }
}

#[test]
fn decode_int8_reinterprets_bytes() {
    let raw = raw_bytes(TagType::INT8.code(), 2, vec![0x7F, 0x80]);
    match decode(&raw) {
        Ok(TagData::Int8(v)) => assert_eq!(v, vec![127, -128]),
        other => panic!("expected Int8, got {:?}", other),
    }
}

#[test]
fn decode_int16_least_significant_first() {
    let raw = raw_bytes(TagType::INT16.code(), 2, vec![0x01, 0x00, 0x00, 0x80]);
    match decode(&raw) {
        Ok(TagData::Int16(v)) => assert_eq!(v, vec![1, -32768]),
        other => panic!("expected Int16, got {:?}", other),
    }
}

#[test]
fn decode_int32_least_significant_first() {
    let raw = raw_bytes(
        TagType::INT32.code(),
        2,
        vec![0x01, 0x00, 0x00, 0x00, 0xFF, 0xFF, 0xFF, 0xFF],
    );
    match decode(&raw) {
        Ok(TagData::Int32(v)) => assert_eq!(v, vec![1, -1]),
        other => panic!("expected Int32, got {:?}", other),
    }
}

#[test]
fn decode_int32_length_mismatch_is_refused() {
    let raw = raw_bytes(4, 2, vec![1, 0, 0, 0, 2, 0, 0]);
    assert_eq!(decode(&raw).unwrap_err().kind(), ErrorKind::Decode);
}

#[test]
fn decode_int64_least_significant_first() {
    let raw = raw_bytes(
        TagType::INT64.code(),
        1,
        vec![0xFE, 0xFF, 0xFF, 0xFF, 0xFF, 0xFF, 0xFF, 0xFF],
    );
    match decode(&raw) {
        Ok(TagData::Int64(v)) => assert_eq!(v, vec![-2]),
        other => panic!("expected Int64, got {:?}", other),
    }
}

#[test]
fn decode_string_array() {
    let raw = raw_strings(
        TagType::STRING_ARRAY.code(),
        2,
        vec![b"one".to_vec(), b"two".to_vec()],
    );
    match decode(&raw) {
        Ok(TagData::StrArray(v)) => assert_eq!(v, vec!["one".to_string(), "two".to_string()]),
        other => panic!("expected StrArray, got {:?}", other),
    }
    // The declared count must match the number of strings.
    let raw = raw_strings(8, 3, vec![b"one".to_vec(), b"two".to_vec()]);
    assert_eq!(decode(&raw).unwrap_err().kind(), ErrorKind::Decode);
}

#[test]
fn decode_i18n_string_takes_active_translation() {
    let raw = raw_strings(
        TagType::I18NSTRING.code(),
        2,
        vec![b"hello".to_vec(), b"hallo".to_vec()],
    );
    match decode(&raw) {
        Ok(TagData::I18NStr(s)) => assert_eq!(s, "hello"),
        other => panic!("expected I18NStr, got {:?}", other),
    }
}

#[test]
fn tag_data_as_str_and_to_int32() {
    let d = TagData::Str("x".to_string());
    assert_eq!(d.as_str(), Some("x"));
    let d = TagData::I18NStr("y".to_string());
    assert_eq!(d.as_str(), Some("y"));
    let d = TagData::Int32(vec![7, 8]);
    assert_eq!(d.as_str(), None);
    assert_eq!(d.to_int32(), Some(7));
    assert_eq!(TagData::Null.to_int32(), None);
}

#[test]
fn container_set_and_get() {
    let mut c = TagContainer::create();
    assert_eq!(c.tag(), Tag::NOT_FOUND);
    assert_eq!(c.tag_type(), TagType::NULL);
    assert_eq!(c.count(), 0);

    // An empty container accepts any tag and type.
    c.set_tag(Tag::NAME, TagType::STRING).unwrap();
    c.set_str("bash").unwrap();
    assert_eq!(c.str(), Some("bash"));
    assert_eq!(c.count(), 1);

    // A loaded container only accepts a tag of the same declared type.
    c.set_tag(Tag::VERSION, TagType::STRING).unwrap();
    let e = c.set_tag(Tag::EPOCH, TagType::INT32).unwrap_err();
    assert_eq!(e.kind(), ErrorKind::Decode);
    assert_eq!(c.tag(), Tag::VERSION);
}

#[test]
fn container_refuses_incompatible_sets() {
    let mut c = TagContainer::create();
    c.set_tag(Tag::EPOCH, TagType::INT32).unwrap();
    // Writing a string into an int container fails loudly ...
    assert_eq!(c.set_str("7").unwrap_err().kind(), ErrorKind::Decode);
    // ... and leaves the container unchanged.
    assert_eq!(c.count(), 0);
    c.set_int32(7).unwrap();
    assert_eq!(c.int32(), Some(7));
    assert_eq!(c.int16(), None);
}

#[test]
fn container_numeric_round_trips() {
    let mut c = TagContainer::create();
    c.set_tag(Tag::SIZE, TagType::INT16).unwrap();
    c.set_int16(-5).unwrap();
    assert_eq!(c.int16(), Some(-5));

    let mut c = TagContainer::create();
    c.set_tag(Tag::SIZE, TagType::INT8).unwrap();
    c.set_int8(-1).unwrap();
    assert_eq!(c.int8(), Some(-1));

    let mut c = TagContainer::create();
    c.set_tag(Tag::LONGSIZE, TagType::INT64).unwrap();
    c.set_int64(1 << 40).unwrap();
    assert_eq!(c.int64(), Some(1 << 40));
}

#[test]
fn container_char_never_truncates() {
    let mut c = TagContainer::create();
    c.set_tag(Tag::FILESTATES, TagType::CHAR).unwrap();
    c.set_char('a').unwrap();
    assert_eq!(c.char(), Some('a'));
    // A character that does not fit one byte is refused, not truncated.
    assert_eq!(c.set_char('\u{20AC}').unwrap_err().kind(), ErrorKind::Decode);
    assert_eq!(c.char(), Some('a'));
}

#[test]
fn container_reset_clears() {
    let mut c = TagContainer::create();
    c.set_tag(Tag::NAME, TagType::STRING).unwrap();
    c.set_str("bash").unwrap();
    c.reset();
    assert_eq!(c.count(), 0);
    assert_eq!(c.tag_type(), TagType::NULL);
    assert_eq!(c.str(), None);
}

#[test]
fn tag_codes_match_the_engine() {
    assert_eq!(Tag::NOT_FOUND.code(), -1);
    assert_eq!(Tag::NAME.code(), 1000);
    assert_eq!(Tag::VERSION.code(), 1001);
    assert_eq!(Tag::RELEASE.code(), 1002);
    assert_eq!(Tag::EPOCH.code(), 1003);
    assert_eq!(Tag::SUMMARY.code(), 1004);
    assert_eq!(Tag::DESCRIPTION.code(), 1005);
    assert_eq!(Tag::BUILDTIME.code(), 1006);
    assert_eq!(Tag::LICENSE.code(), 1014);
    assert_eq!(Tag::ARCH.code(), 1022);
    assert_eq!(Tag::BASENAMES.code(), 1117);
    assert_eq!(Tag::NEVRA.code(), 5016);
}

#[test]
fn tag_type_codes_round_trip() {
    for code in 0..10u32 {
        let t = TagType::from_code(code).unwrap();
        assert_eq!(t.code(), code);
    }
    assert!(TagType::from_code(10).is_none());
}

#[test]
fn tag_classes() {
    assert_eq!(TagClass::of_type(TagType::NULL), TagClass::NULL);
    assert_eq!(TagClass::of_type(TagType::INT32), TagClass::NUMERIC);
    assert_eq!(TagClass::of_type(TagType::STRING), TagClass::STRING);
    assert_eq!(TagClass::of_type(TagType::I18NSTRING), TagClass::STRING);
    assert_eq!(TagClass::of_type(TagType::BIN), TagClass::BINARY);
    assert_eq!(TagClass::NUMERIC.code(), 1);
}
