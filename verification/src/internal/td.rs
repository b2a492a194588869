//! Tag data: decoding and building the typed values carried by header tags.
//!
//! A native tagged value arrives as a type code, a count, and a raw payload.
//! `decode` turns that triple into a [`TagData`] variant, refusing
//! mismatched shapes, missing payloads and invalid UTF-8 instead of ever
//! returning silently wrong-typed data.  [`TagContainer`] models the native
//! tag-data container used when writing values back: a value of an
//! incompatible type is rejected loudly, never truncated or coerced.

use vstd::prelude::*;
use crate::error::{Error, ErrorKind};
use crate::internal::tag::{Tag, TagType};

verus! {

/// A decoded, typed value extracted for a given tag.
///
/// The discriminant always matches the native type code the value was
/// decoded from; numeric variants hold one element per counted item.
#[derive(Debug)]
pub enum TagData {
    /// No data.
    Null,
    /// Single-byte characters.
    Char(Vec<u8>),
    /// 8-bit integers.
    Int8(Vec<i8>),
    /// 16-bit integers.
    Int16(Vec<i16>),
    /// 32-bit integers.
    Int32(Vec<i32>),
    /// 64-bit integers.
    Int64(Vec<i64>),
    /// A string.
    Str(String),
    /// An array of strings.
    StrArray(Vec<String>),
    /// An internationalized string.
    I18NStr(String),
    /// An opaque binary blob.
    Bin(Vec<u8>),
}

impl TagData {
    /// The string payload, for the two string-typed variants.
    pub fn as_str(&self) -> (r: Option<&str>)
        ensures
            match self {
                TagData::Str(s) => r matches Some(x) && x@ == s@,
                TagData::I18NStr(s) => r matches Some(x) && x@ == s@,
                _ => r is None,
            },
    {
        match self {
            TagData::Str(s) => Some(s.as_str()),
            TagData::I18NStr(s) => Some(s.as_str()),
            _ => None,
        }
    }

    /// The first 32-bit integer element, when this value holds any.
    pub fn to_int32(&self) -> (r: Option<i32>)
        ensures
            match self {
                TagData::Int32(v) => if v@.len() > 0 {
                    r matches Some(x) && x == v@[0]
                } else {
                    r is None
                },
                _ => r is None,
            },
    {
        match self {
            TagData::Int32(v) => {
                if v.len() > 0 {
                    Some(v[0])
                } else {
                    None
                }
            },
            _ => None,
        }
    }
}

/// The raw payload of one native tagged value, as read out of the engine's
/// memory by the unverified shell.
pub enum RawPayload {
    /// The raw bytes of a numeric array or a binary blob, elements laid out
    /// least-significant byte first.
    Bytes(Vec<u8>),
    /// The bytes of each string, terminators excluded.
    Strings(Vec<Vec<u8>>),
}

/// One native tagged value: a type code, an element count, and the payload
/// (`None` models a null data pointer).
pub struct RawTagData {
    /// The native type code (`rpmTagType_e`).
    pub type_code: u32,
    /// The declared number of elements.
    pub count: u32,
    /// The payload, or `None` when the engine handed out no data.
    pub data: Option<RawPayload>,
}

/// What `String::from_utf8` decodes the given bytes to: `Some` exactly on
/// valid UTF-8, and then the decoded characters.
pub uninterp spec fn utf8_decode(bytes: Seq<u8>) -> Option<Seq<char>>;

/// Relies on `String::from_utf8`: it succeeds exactly on valid UTF-8 input,
/// the result depends on the bytes alone, and ASCII bytes (being valid
/// UTF-8) decode to the characters with the same code points.
#[verifier::external_body]
fn bytes_to_string(b: &[u8]) -> (r: Option<String>)
    ensures
        r is Some <==> utf8_decode(b@) is Some,
        r matches Some(s) ==> utf8_decode(b@) == Some(s@),
        r is Some || !(forall|i: int| 0 <= i < b@.len() ==> b@[i] < 0x80),
        r matches Some(s) ==> ((forall|i: int| 0 <= i < b@.len() ==> b@[i] < 0x80)
            ==> s@.len() == b@.len()
                && (forall|i: int| 0 <= i < b@.len() ==> s@[i] == b@[i] as char)),
{
    String::from_utf8(b.to_vec()).ok()
}

/// The signed value denoted by an 8-bit two's-complement pattern.
pub open spec fn as_signed8(v: int) -> int {
    if v >= 0x80 {
        v - 0x100
    } else {
        v
    }
}

/// The signed value denoted by a 16-bit two's-complement pattern.
pub open spec fn as_signed16(v: int) -> int {
    if v >= 0x8000 {
        v - 0x10000
    } else {
        v
    }
}

/// The signed value denoted by a 32-bit two's-complement pattern.
pub open spec fn as_signed32(v: int) -> int {
    if v >= 0x80000000 {
        v - 0x100000000
    } else {
        v
    }
}

/// The signed value denoted by a 64-bit two's-complement pattern.
pub open spec fn as_signed64(v: int) -> int {
    if v >= 0x8000000000000000 {
        v - 0x10000000000000000
    } else {
        v
    }
}

/// The unsigned value of the `j`-th 16-bit element of `b`, least-significant
/// byte first.
pub open spec fn le16_at(b: Seq<u8>, j: int) -> int {
    b[2 * j] + 0x100 * b[2 * j + 1]
}

/// The unsigned value of the `j`-th 32-bit element of `b`, least-significant
/// byte first.
pub open spec fn le32_at(b: Seq<u8>, j: int) -> int {
    b[4 * j] + 0x100 * b[4 * j + 1] + 0x10000 * b[4 * j + 2] + 0x1000000 * b[4 * j + 3]
}

/// The unsigned value of the `j`-th 64-bit element of `b`, least-significant
/// byte first.
pub open spec fn le64_at(b: Seq<u8>, j: int) -> int {
    b[8 * j] + 0x100 * b[8 * j + 1] + 0x10000 * b[8 * j + 2] + 0x1000000 * b[8 * j + 3]
        + 0x100000000 * b[8 * j + 4] + 0x10000000000 * b[8 * j + 5]
        + 0x1000000000000 * b[8 * j + 6] + 0x100000000000000 * b[8 * j + 7]
}

/// Whether one native tagged value has a recognized type code and a payload
/// of the matching shape, with all string payloads valid UTF-8.
pub open spec fn spec_decodable(raw: RawTagData) -> bool {
    if raw.type_code == 0 {
        true
    } else if raw.type_code == 1 || raw.type_code == 2 {
        match raw.data {
            Some(RawPayload::Bytes(b)) => b@.len() == raw.count,
            _ => false,
        }
    } else if raw.type_code == 3 {
        match raw.data {
            Some(RawPayload::Bytes(b)) => b@.len() == 2 * raw.count,
            _ => false,
        }
    } else if raw.type_code == 4 {
        match raw.data {
            Some(RawPayload::Bytes(b)) => b@.len() == 4 * raw.count,
            _ => false,
        }
    } else if raw.type_code == 5 {
        match raw.data {
            Some(RawPayload::Bytes(b)) => b@.len() == 8 * raw.count,
            _ => false,
        }
    } else if raw.type_code == 6 {
        match raw.data {
            Some(RawPayload::Strings(ss)) => raw.count == 1 && ss@.len() == 1
                && utf8_decode(ss@[0]@) is Some,
            _ => false,
        }
    } else if raw.type_code == 7 {
        match raw.data {
            Some(RawPayload::Bytes(b)) => b@.len() == raw.count,
            _ => false,
        }
    } else if raw.type_code == 8 {
        match raw.data {
            Some(RawPayload::Strings(ss)) => ss@.len() == raw.count
                && (forall|j: int| 0 <= j < ss@.len() ==> utf8_decode(ss@[j]@) is Some),
            _ => false,
        }
    } else if raw.type_code == 9 {
        match raw.data {
            Some(RawPayload::Strings(ss)) => ss@.len() >= 1 && utf8_decode(ss@[0]@) is Some,
            _ => false,
        }
    } else {
        false
    }
}

/// Whether `d` is exactly the decoding of the native tagged value `raw`.
pub open spec fn spec_decodes_to(raw: RawTagData, d: TagData) -> bool {
    if raw.type_code == 0 {
        d is Null
    } else if raw.type_code == 1 {
        match (raw.data, d) {
            (Some(RawPayload::Bytes(b)), TagData::Char(v)) => v@ == b@,
            _ => false,
        }
    } else if raw.type_code == 2 {
        match (raw.data, d) {
            (Some(RawPayload::Bytes(b)), TagData::Int8(v)) => v@.len() == b@.len()
                && (forall|j: int| 0 <= j < v@.len() ==> v@[j] == as_signed8(b@[j] as int)),
            _ => false,
        }
    } else if raw.type_code == 3 {
        match (raw.data, d) {
            (Some(RawPayload::Bytes(b)), TagData::Int16(v)) => 2 * v@.len() == b@.len()
                && (forall|j: int| 0 <= j < v@.len() ==> v@[j] == as_signed16(le16_at(b@, j))),
            _ => false,
        }
    } else if raw.type_code == 4 {
        match (raw.data, d) {
            (Some(RawPayload::Bytes(b)), TagData::Int32(v)) => 4 * v@.len() == b@.len()
                && (forall|j: int| 0 <= j < v@.len() ==> v@[j] == as_signed32(le32_at(b@, j))),
            _ => false,
        }
    } else if raw.type_code == 5 {
        match (raw.data, d) {
            (Some(RawPayload::Bytes(b)), TagData::Int64(v)) => 8 * v@.len() == b@.len()
                && (forall|j: int| 0 <= j < v@.len() ==> v@[j] == as_signed64(le64_at(b@, j))),
            _ => false,
        }
    } else if raw.type_code == 6 {
        match (raw.data, d) {
            (Some(RawPayload::Strings(ss)), TagData::Str(s)) => ss@.len() == 1
                && utf8_decode(ss@[0]@) == Some(s@),
            _ => false,
        }
    } else if raw.type_code == 7 {
        match (raw.data, d) {
            (Some(RawPayload::Bytes(b)), TagData::Bin(v)) => v@ == b@ && v@.len() == raw.count,
            _ => false,
        }
    } else if raw.type_code == 8 {
        match (raw.data, d) {
            (Some(RawPayload::Strings(ss)), TagData::StrArray(v)) => v@.len() == ss@.len()
                && (forall|j: int| 0 <= j < v@.len()
                    ==> #[trigger] utf8_decode(ss@[j]@) == Some(v@[j]@)),
            _ => false,
        }
    } else if raw.type_code == 9 {
        match (raw.data, d) {
            (Some(RawPayload::Strings(ss)), TagData::I18NStr(s)) => ss@.len() >= 1
                && utf8_decode(ss@[0]@) == Some(s@),
            _ => false,
        }
    } else {
        false
    }
}

/// Decode one native tagged value into its typed form.
///
/// Succeeds exactly when the type code is recognized, the payload has the
/// shape the type code declares, and every string payload is valid UTF-8;
/// every other input is refused as a decode error rather than interpreted
/// as data of the wrong type.
#[verifier::rlimit(100)]
pub fn decode(raw: &RawTagData) -> (r: Result<TagData, Error>)
    ensures
        r is Ok <==> spec_decodable(*raw),
        r matches Ok(d) ==> spec_decodes_to(*raw, d),
        r matches Err(e) ==> e.spec_kind() == ErrorKind::Decode,
{
    if raw.type_code == 0 {
        Ok(TagData::Null)
    } else if raw.type_code == 1 {
        match &raw.data {
            Some(RawPayload::Bytes(b)) => {
                if b.len() == raw.count as usize {
                    Ok(TagData::Char(copy_bytes(b)))
                } else {
                    Err(Error::new(ErrorKind::Decode, None))
                }
            },
            _ => Err(Error::new(ErrorKind::Decode, None)),
        }
    } else if raw.type_code == 2 {
        match &raw.data {
            Some(RawPayload::Bytes(b)) => {
                if b.len() == raw.count as usize {
                    Ok(TagData::Int8(decode_int8s(b)))
                } else {
                    Err(Error::new(ErrorKind::Decode, None))
                }
            },
            _ => Err(Error::new(ErrorKind::Decode, None)),
        }
    } else if raw.type_code == 3 {
        match &raw.data {
            Some(RawPayload::Bytes(b)) => {
                if b.len() % 2 == 0 && b.len() / 2 == raw.count as usize {
                    Ok(TagData::Int16(decode_int16s(b)))
                } else {
                    Err(Error::new(ErrorKind::Decode, None))
                }
            },
            _ => Err(Error::new(ErrorKind::Decode, None)),
        }
    } else if raw.type_code == 4 {
        match &raw.data {
            Some(RawPayload::Bytes(b)) => {
                if b.len() % 4 == 0 && b.len() / 4 == raw.count as usize {
                    Ok(TagData::Int32(decode_int32s(b)))
                } else {
                    Err(Error::new(ErrorKind::Decode, None))
                }
            },
            _ => Err(Error::new(ErrorKind::Decode, None)),
        }
    } else if raw.type_code == 5 {
        match &raw.data {
            Some(RawPayload::Bytes(b)) => {
                if b.len() % 8 == 0 && b.len() / 8 == raw.count as usize {
                    Ok(TagData::Int64(decode_int64s(b)))
                } else {
                    Err(Error::new(ErrorKind::Decode, None))
                }
            },
            _ => Err(Error::new(ErrorKind::Decode, None)),
        }
    } else if raw.type_code == 6 {
        match &raw.data {
            Some(RawPayload::Strings(ss)) => {
                if raw.count == 1 && ss.len() == 1 {
                    match bytes_to_string(ss[0].as_slice()) {
                        Some(s) => Ok(TagData::Str(s)),
                        None => Err(Error::new(ErrorKind::Decode, None)),
                    }
                } else {
                    Err(Error::new(ErrorKind::Decode, None))
                }
            },
            _ => Err(Error::new(ErrorKind::Decode, None)),
        }
    } else if raw.type_code == 7 {
        match &raw.data {
            Some(RawPayload::Bytes(b)) => {
                if b.len() == raw.count as usize {
                    Ok(TagData::Bin(copy_bytes(b)))
                } else {
                    Err(Error::new(ErrorKind::Decode, None))
                }
            },
            _ => Err(Error::new(ErrorKind::Decode, None)),
        }
    } else if raw.type_code == 8 {
        match &raw.data {
            Some(RawPayload::Strings(ss)) => {
                if ss.len() == raw.count as usize {
                    decode_string_array(ss)
                } else {
                    Err(Error::new(ErrorKind::Decode, None))
                }
            },
            _ => Err(Error::new(ErrorKind::Decode, None)),
        }
    } else if raw.type_code == 9 {
        match &raw.data {
            Some(RawPayload::Strings(ss)) => {
                if ss.len() >= 1 {
                    match bytes_to_string(ss[0].as_slice()) {
                        Some(s) => Ok(TagData::I18NStr(s)),
                        None => Err(Error::new(ErrorKind::Decode, None)),
                    }
                } else {
                    Err(Error::new(ErrorKind::Decode, None))
                }
            },
            _ => Err(Error::new(ErrorKind::Decode, None)),
        }
    } else {
        Err(Error::new(ErrorKind::Decode, None))
    }
}

/// Copy a byte vector.
fn copy_bytes(b: &Vec<u8>) -> (r: Vec<u8>)
    ensures
        r@ == b@,
{
    let mut r: Vec<u8> = Vec::new();
    let mut i: usize = 0;
    while i < b.len()
        invariant
            i <= b@.len(),
            r@ == b@.subrange(0, i as int),
        decreases b@.len() - i,
    {
        r.push(b[i]);
        i = i + 1;
        proof {
            assert(r@ =~= b@.subrange(0, i as int));
        }
    }
    proof {
        assert(r@ =~= b@);
    }
    r
}

/// Reinterpret each byte as a signed 8-bit integer.
fn decode_int8s(b: &Vec<u8>) -> (r: Vec<i8>)
    ensures
        r@.len() == b@.len(),
        forall|j: int| 0 <= j < r@.len() ==> r@[j] == as_signed8(b@[j] as int),
{
    let mut r: Vec<i8> = Vec::new();
    let mut i: usize = 0;
    while i < b.len()
        invariant
            i <= b@.len(),
            r@.len() == i,
            forall|j: int| 0 <= j < i ==> r@[j] == as_signed8(b@[j] as int),
        decreases b@.len() - i,
    {
        let u = b[i];
        let s: i8 = if u < 0x80 {
            u as i8
        } else {
            ((u as i32) - 0x100) as i8
        };
        r.push(s);
        i = i + 1;
    }
    r
}

/// Decode 16-bit signed integers, least-significant byte first.
fn decode_int16s(b: &Vec<u8>) -> (r: Vec<i16>)
    requires
        b@.len() % 2 == 0,
    ensures
        2 * r@.len() == b@.len(),
        forall|j: int| 0 <= j < r@.len() ==> r@[j] == as_signed16(le16_at(b@, j)),
{
    let mut r: Vec<i16> = Vec::new();
    let mut pos: usize = 0;
    while pos < b.len()
        invariant
            b@.len() % 2 == 0,
            pos % 2 == 0,
            pos <= b@.len(),
            2 * r@.len() == pos,
            forall|j: int| 0 <= j < r@.len() ==> r@[j] == as_signed16(le16_at(b@, j)),
        decreases b@.len() - pos,
    {
        let b0 = b[pos] as u16;
        let b1 = b[pos + 1] as u16;
        let u: u16 = b0 + b1 * 0x100;
        let s: i16 = if u < 0x8000 {
            u as i16
        } else {
            ((u as i32) - 0x10000) as i16
        };
        proof {
            assert(le16_at(b@, r@.len() as int) == u as int);
        }
        r.push(s);
        pos = pos + 2;
    }
    r
}

/// Decode 32-bit signed integers, least-significant byte first.
fn decode_int32s(b: &Vec<u8>) -> (r: Vec<i32>)
    requires
        b@.len() % 4 == 0,
    ensures
        4 * r@.len() == b@.len(),
        forall|j: int| 0 <= j < r@.len() ==> r@[j] == as_signed32(le32_at(b@, j)),
{
    let mut r: Vec<i32> = Vec::new();
    let mut pos: usize = 0;
    while pos < b.len()
        invariant
            b@.len() % 4 == 0,
            pos % 4 == 0,
            pos <= b@.len(),
            4 * r@.len() == pos,
            forall|j: int| 0 <= j < r@.len() ==> r@[j] == as_signed32(le32_at(b@, j)),
        decreases b@.len() - pos,
    {
        let b0 = b[pos] as u32;
        let b1 = b[pos + 1] as u32;
        let b2 = b[pos + 2] as u32;
        let b3 = b[pos + 3] as u32;
        let u: u32 = b0 + b1 * 0x100 + b2 * 0x10000 + b3 * 0x1000000;
        let s: i32 = if u < 0x80000000 {
            u as i32
        } else {
            ((u as i64) - 0x100000000) as i32
        };
        proof {
            assert(le32_at(b@, r@.len() as int) == u as int);
        }
        r.push(s);
        pos = pos + 4;
    }
    r
}

/// Decode 64-bit signed integers, least-significant byte first.
fn decode_int64s(b: &Vec<u8>) -> (r: Vec<i64>)
    requires
        b@.len() % 8 == 0,
    ensures
        8 * r@.len() == b@.len(),
        forall|j: int| 0 <= j < r@.len() ==> r@[j] == as_signed64(le64_at(b@, j)),
{
    let mut r: Vec<i64> = Vec::new();
    let mut pos: usize = 0;
    while pos < b.len()
        invariant
            b@.len() % 8 == 0,
            pos % 8 == 0,
            pos <= b@.len(),
            8 * r@.len() == pos,
            forall|j: int| 0 <= j < r@.len() ==> r@[j] == as_signed64(le64_at(b@, j)),
        decreases b@.len() - pos,
    {
        let b0 = b[pos] as u64;
        let b1 = b[pos + 1] as u64;
        let b2 = b[pos + 2] as u64;
        let b3 = b[pos + 3] as u64;
        let b4 = b[pos + 4] as u64;
        let b5 = b[pos + 5] as u64;
        let b6 = b[pos + 6] as u64;
        let b7 = b[pos + 7] as u64;
        let u: u64 = b0 + b1 * 0x100 + b2 * 0x10000 + b3 * 0x1000000 + b4 * 0x100000000
            + b5 * 0x10000000000 + b6 * 0x1000000000000 + b7 * 0x100000000000000;
        let s: i64 = if u < 0x8000000000000000 {
            u as i64
        } else {
            -((0xFFFFFFFFFFFFFFFF - u) as i64) - 1
        };
        proof {
            assert(le64_at(b@, r@.len() as int) == u as int);
            assert(s == as_signed64(u as int));
        }
        r.push(s);
        pos = pos + 8;
    }
    r
}

/// Models the native mutable tag-data container: a tag, the declared type
/// of its payload, and the current value.
///
/// The declared type is fixed when the container is (re)bound to a tag;
/// every setter checks the value it is given against that type and fails
/// loudly on a mismatch instead of truncating or coercing.
pub struct TagContainer {
    tag: Tag,
    typ: TagType,
    value: TagData,
}

impl TagContainer {
    /// The tag this container is bound to.
    pub closed spec fn spec_tag(self) -> Tag {
        self.tag
    }

    /// The declared payload type of this container.
    pub closed spec fn spec_type(self) -> TagType {
        self.typ
    }

    /// The value currently held.
    pub closed spec fn spec_value(self) -> TagData {
        self.value
    }

    /// The number of elements currently held.
    pub open spec fn spec_count(self) -> int {
        match self.spec_value() {
            TagData::Null => 0,
            TagData::Char(v) => v@.len() as int,
            TagData::Int8(v) => v@.len() as int,
            TagData::Int16(v) => v@.len() as int,
            TagData::Int32(v) => v@.len() as int,
            TagData::Int64(v) => v@.len() as int,
            TagData::Str(_) => 1,
            TagData::StrArray(v) => v@.len() as int,
            TagData::I18NStr(_) => 1,
            TagData::Bin(v) => v@.len() as int,
        }
    }

    /// A fresh, empty container: no tag, no declared type, no value.
    pub fn create() -> (c: TagContainer)
        ensures
            c.spec_tag() == Tag::NOT_FOUND,
            c.spec_type() == TagType::NULL,
            c.spec_value() is Null,
    {
        TagContainer { tag: Tag::NOT_FOUND, typ: TagType::NULL, value: TagData::Null }
    }

    /// Reset the container for reuse: back to the fresh, empty state.
    pub fn reset(&mut self)
        ensures
            final(self).spec_tag() == Tag::NOT_FOUND,
            final(self).spec_type() == TagType::NULL,
            final(self).spec_value() is Null,
    {
        self.tag = Tag::NOT_FOUND;
        self.typ = TagType::NULL;
        self.value = TagData::Null;
    }

    /// The tag this container is bound to.
    pub fn tag(&self) -> (t: Tag)
        ensures
            t == self.spec_tag(),
    {
        self.tag
    }

    /// The declared payload type of this container.
    pub fn tag_type(&self) -> (t: TagType)
        ensures
            t == self.spec_type(),
    {
        self.typ
    }

    /// The number of elements currently held.
    pub fn count(&self) -> (n: usize)
        ensures
            n == self.spec_count(),
    {
        match &self.value {
            TagData::Null => 0,
            TagData::Char(v) => v.len(),
            TagData::Int8(v) => v.len(),
            TagData::Int16(v) => v.len(),
            TagData::Int32(v) => v.len(),
            TagData::Int64(v) => v.len(),
            TagData::Str(_) => 1,
            TagData::StrArray(v) => v.len(),
            TagData::I18NStr(_) => 1,
            TagData::Bin(v) => v.len(),
        }
    }

    /// Bind the container to a tag whose payload has the given declared
    /// type.
    ///
    /// Succeeds when the container is empty (any tag may then be set) or
    /// when the new tag's type matches the declared one; otherwise the
    /// container is left unchanged and the call fails.
    pub fn set_tag(&mut self, tag: Tag, typ: TagType) -> (r: Result<(), Error>)
        ensures
            r is Ok <==> (old(self).spec_value() is Null || typ == old(self).spec_type()),
            r is Ok ==> final(self).spec_tag() == tag && final(self).spec_type() == typ
                && final(self).spec_value() == old(self).spec_value(),
            r is Err ==> *final(self) == *old(self),
            r matches Err(e) ==> e.spec_kind() == ErrorKind::Decode,
    {
        let empty = matches!(&self.value, TagData::Null);
        if empty || self.typ.code() == typ.code() {
            proof {
                if !empty {
                    assert(self.typ == typ) by {
                        assert(self.typ.spec_code() == typ.spec_code());
                        match self.typ {
                            TagType::NULL => assert(typ == TagType::NULL),
                            TagType::CHAR => assert(typ == TagType::CHAR),
                            TagType::INT8 => assert(typ == TagType::INT8),
                            TagType::INT16 => assert(typ == TagType::INT16),
                            TagType::INT32 => assert(typ == TagType::INT32),
                            TagType::INT64 => assert(typ == TagType::INT64),
                            TagType::STRING => assert(typ == TagType::STRING),
                            TagType::BIN => assert(typ == TagType::BIN),
                            TagType::STRING_ARRAY => assert(typ == TagType::STRING_ARRAY),
                            TagType::I18NSTRING => assert(typ == TagType::I18NSTRING),
                        }
                    };
                }
            }
            self.tag = tag;
            self.typ = typ;
            Ok(())
        } else {
            Err(Error::new(ErrorKind::Decode, None))
        }
    }

    /// Store a single-byte character; fails unless the declared type is
    /// `CHAR` and the character fits in one byte.
    pub fn set_char(&mut self, value: char) -> (r: Result<(), Error>)
        ensures
            r is Ok <==> (old(self).spec_type() == TagType::CHAR && value as u32 <= 0xFF),
            r is Ok ==> final(self).spec_tag() == old(self).spec_tag()
                && final(self).spec_type() == old(self).spec_type()
                && (final(self).spec_value() matches TagData::Char(v) && v@.len() == 1
                    && v@[0] == value as u8),
            r is Err ==> *final(self) == *old(self),
            r matches Err(e) ==> e.spec_kind() == ErrorKind::Decode,
    {
        let code = value as u32;
        if matches!(self.typ, TagType::CHAR) && code <= 0xFF {
            let mut v: Vec<u8> = Vec::new();
            v.push(code as u8);
            self.value = TagData::Char(v);
            Ok(())
        } else {
            Err(Error::new(ErrorKind::Decode, None))
        }
    }

    /// The single character held, when the container holds one.
    pub fn char(&self) -> (r: Option<char>)
        ensures
            match (self.spec_type(), self.spec_value()) {
                (TagType::CHAR, TagData::Char(v)) => if v@.len() > 0 {
                    r == Some(v@[0] as char)
                } else {
                    r is None
                },
                _ => r is None,
            },
    {
        match (&self.typ, &self.value) {
            (TagType::CHAR, TagData::Char(v)) => {
                if v.len() > 0 {
                    Some(v[0] as char)
                } else {
                    None
                }
            },
            _ => None,
        }
    }

    /// Store an 8-bit integer; fails unless the declared type is `INT8`.
    pub fn set_int8(&mut self, value: i8) -> (r: Result<(), Error>)
        ensures
            r is Ok <==> old(self).spec_type() == TagType::INT8,
            r is Ok ==> final(self).spec_tag() == old(self).spec_tag()
                && final(self).spec_type() == old(self).spec_type()
                && (final(self).spec_value() matches TagData::Int8(v) && v@.len() == 1
                    && v@[0] == value),
            r is Err ==> *final(self) == *old(self),
            r matches Err(e) ==> e.spec_kind() == ErrorKind::Decode,
    {
        if matches!(self.typ, TagType::INT8) {
            let mut v: Vec<i8> = Vec::new();
            v.push(value);
            self.value = TagData::Int8(v);
            Ok(())
        } else {
            Err(Error::new(ErrorKind::Decode, None))
        }
    }

    /// The first 8-bit integer held, when the container holds any.
    pub fn int8(&self) -> (r: Option<i8>)
        ensures
            match (self.spec_type(), self.spec_value()) {
                (TagType::INT8, TagData::Int8(v)) => if v@.len() > 0 {
                    r == Some(v@[0])
                } else {
                    r is None
                },
                _ => r is None,
            },
    {
        match (&self.typ, &self.value) {
            (TagType::INT8, TagData::Int8(v)) => {
                if v.len() > 0 {
                    Some(v[0])
                } else {
                    None
                }
            },
            _ => None,
        }
    }

    /// Store a 16-bit integer; fails unless the declared type is `INT16`.
    pub fn set_int16(&mut self, value: i16) -> (r: Result<(), Error>)
        ensures
            r is Ok <==> old(self).spec_type() == TagType::INT16,
            r is Ok ==> final(self).spec_tag() == old(self).spec_tag()
                && final(self).spec_type() == old(self).spec_type()
                && (final(self).spec_value() matches TagData::Int16(v) && v@.len() == 1
                    && v@[0] == value),
            r is Err ==> *final(self) == *old(self),
            r matches Err(e) ==> e.spec_kind() == ErrorKind::Decode,
    {
        if matches!(self.typ, TagType::INT16) {
            let mut v: Vec<i16> = Vec::new();
            v.push(value);
            self.value = TagData::Int16(v);
            Ok(())
        } else {
            Err(Error::new(ErrorKind::Decode, None))
        }
    }

    /// The first 16-bit integer held, when the container holds any.
    pub fn int16(&self) -> (r: Option<i16>)
        ensures
            match (self.spec_type(), self.spec_value()) {
                (TagType::INT16, TagData::Int16(v)) => if v@.len() > 0 {
                    r == Some(v@[0])
                } else {
                    r is None
                },
                _ => r is None,
            },
    {
        match (&self.typ, &self.value) {
            (TagType::INT16, TagData::Int16(v)) => {
                if v.len() > 0 {
                    Some(v[0])
                } else {
                    None
                }
            },
            _ => None,
        }
    }

    /// Store a 32-bit integer; fails unless the declared type is `INT32`.
    pub fn set_int32(&mut self, value: i32) -> (r: Result<(), Error>)
        ensures
            r is Ok <==> old(self).spec_type() == TagType::INT32,
            r is Ok ==> final(self).spec_tag() == old(self).spec_tag()
                && final(self).spec_type() == old(self).spec_type()
                && (final(self).spec_value() matches TagData::Int32(v) && v@.len() == 1
                    && v@[0] == value),
            r is Err ==> *final(self) == *old(self),
            r matches Err(e) ==> e.spec_kind() == ErrorKind::Decode,
    {
        if matches!(self.typ, TagType::INT32) {
            let mut v: Vec<i32> = Vec::new();
            v.push(value);
            self.value = TagData::Int32(v);
            Ok(())
        } else {
            Err(Error::new(ErrorKind::Decode, None))
        }
    }

    /// The first 32-bit integer held, when the container holds any.
    pub fn int32(&self) -> (r: Option<i32>)
        ensures
            match (self.spec_type(), self.spec_value()) {
                (TagType::INT32, TagData::Int32(v)) => if v@.len() > 0 {
                    r == Some(v@[0])
                } else {
                    r is None
                },
                _ => r is None,
            },
    {
        match (&self.typ, &self.value) {
            (TagType::INT32, TagData::Int32(v)) => {
                if v.len() > 0 {
                    Some(v[0])
                } else {
                    None
                }
            },
            _ => None,
        }
    }

    /// Store a 64-bit integer; fails unless the declared type is `INT64`.
    pub fn set_int64(&mut self, value: i64) -> (r: Result<(), Error>)
        ensures
            r is Ok <==> old(self).spec_type() == TagType::INT64,
            r is Ok ==> final(self).spec_tag() == old(self).spec_tag()
                && final(self).spec_type() == old(self).spec_type()
                && (final(self).spec_value() matches TagData::Int64(v) && v@.len() == 1
                    && v@[0] == value),
            r is Err ==> *final(self) == *old(self),
            r matches Err(e) ==> e.spec_kind() == ErrorKind::Decode,
    {
        if matches!(self.typ, TagType::INT64) {
            let mut v: Vec<i64> = Vec::new();
            v.push(value);
            self.value = TagData::Int64(v);
            Ok(())
        } else {
            Err(Error::new(ErrorKind::Decode, None))
        }
    }

    /// The first 64-bit integer held, when the container holds any.
    pub fn int64(&self) -> (r: Option<i64>)
        ensures
            match (self.spec_type(), self.spec_value()) {
                (TagType::INT64, TagData::Int64(v)) => if v@.len() > 0 {
                    r == Some(v@[0])
                } else {
                    r is None
                },
                _ => r is None,
            },
    {
        match (&self.typ, &self.value) {
            (TagType::INT64, TagData::Int64(v)) => {
                if v.len() > 0 {
                    Some(v[0])
                } else {
                    None
                }
            },
            _ => None,
        }
    }

    /// Store a string; fails unless the declared type is `STRING`.
    pub fn set_str(&mut self, value: &str) -> (r: Result<(), Error>)
        ensures
            r is Ok <==> old(self).spec_type() == TagType::STRING,
            r is Ok ==> final(self).spec_tag() == old(self).spec_tag()
                && final(self).spec_type() == old(self).spec_type()
                && (final(self).spec_value() matches TagData::Str(s) && s@ == value@),
            r is Err ==> *final(self) == *old(self),
            r matches Err(e) ==> e.spec_kind() == ErrorKind::Decode,
    {
        if matches!(self.typ, TagType::STRING) {
            self.value = TagData::Str(value.to_owned());
            Ok(())
        } else {
            Err(Error::new(ErrorKind::Decode, None))
        }
    }

    /// The string held, when the container is string-typed and holds one.
    pub fn str(&self) -> (r: Option<&str>)
        ensures
            match (self.spec_type(), self.spec_value()) {
                (TagType::STRING, TagData::Str(s)) => r matches Some(x) && x@ == s@,
                _ => r is None,
            },
    {
        match (&self.typ, &self.value) {
            (TagType::STRING, TagData::Str(s)) => Some(s.as_str()),
            _ => None,
        }
    }

    /// The active translation held, when the container is
    /// internationalized-string-typed and holds one.
    pub fn i18n_string(&self) -> (r: Option<&str>)
        ensures
            match (self.spec_type(), self.spec_value()) {
                (TagType::I18NSTRING, TagData::I18NStr(s)) => r matches Some(x) && x@ == s@,
                _ => r is None,
            },
    {
        match (&self.typ, &self.value) {
            (TagType::I18NSTRING, TagData::I18NStr(s)) => Some(s.as_str()),
            _ => None,
        }
    }

    /// The strings held, when the container is string-array-typed.
    pub fn string_array(&self) -> (r: Option<&Vec<String>>)
        ensures
            match (self.spec_type(), self.spec_value()) {
                (TagType::STRING_ARRAY, TagData::StrArray(v)) => r matches Some(x) && x@ == v@,
                _ => r is None,
            },
    {
        match (&self.typ, &self.value) {
            (TagType::STRING_ARRAY, TagData::StrArray(v)) => Some(v),
            _ => None,
        }
    }

    /// The binary payload held, when the container is binary-typed: exactly
    /// the counted bytes, never more.
    pub fn bin(&self) -> (r: Option<&Vec<u8>>)
        ensures
            match (self.spec_type(), self.spec_value()) {
                (TagType::BIN, TagData::Bin(v)) => r matches Some(x) && x@ == v@,
                _ => r is None,
            },
    {
        match (&self.typ, &self.value) {
            (TagType::BIN, TagData::Bin(v)) => Some(v),
            _ => None,
        }
    }
}

/// Decode each string of a string array, refusing invalid UTF-8.
fn decode_string_array(ss: &Vec<Vec<u8>>) -> (r: Result<TagData, Error>)
    ensures
        r is Ok <==> (forall|j: int| 0 <= j < ss@.len() ==> utf8_decode(ss@[j]@) is Some),
        r matches Ok(d) ==> d matches TagData::StrArray(v) && v@.len() == ss@.len()
            && (forall|j: int| 0 <= j < v@.len()
                ==> #[trigger] utf8_decode(ss@[j]@) == Some(v@[j]@)),
        r matches Err(e) ==> e.spec_kind() == ErrorKind::Decode,
{
    let mut v: Vec<String> = Vec::new();
    let mut i: usize = 0;
    while i < ss.len()
        invariant
            i <= ss@.len(),
            v@.len() == i,
            forall|j: int| 0 <= j < i ==> utf8_decode(ss@[j]@) is Some,
            forall|j: int| 0 <= j < i
                ==> #[trigger] utf8_decode(ss@[j]@) == Some(v@[j]@),
        decreases ss@.len() - i,
    {
        match bytes_to_string(ss[i].as_slice()) {
            Some(s) => {
                v.push(s);
            },
            None => {
                return Err(Error::new(ErrorKind::Decode, None));
            },
        }
        i = i + 1;
    }
    Ok(TagData::StrArray(v))
}

} // verus!
