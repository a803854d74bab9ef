use vstd::prelude::*;
use vstd::bytes::{
    spec_u16_from_le_bytes, spec_u16_to_le_bytes, spec_u32_from_le_bytes, spec_u32_to_le_bytes,
    spec_u64_from_le_bytes, spec_u64_to_le_bytes, u16_from_le_bytes, u16_to_le_bytes,
    u32_from_le_bytes, u32_to_le_bytes, u64_from_le_bytes, u64_to_le_bytes,
};
use vstd::string::{StrSliceExecFns, StringExecFns, StringSliceAdditionalSpecFns};
use vstd::utf8::{decode_utf8, encode_utf8, valid_utf8};
use crate::error::SpiError;
use crate::tag::TypeTag;
use crate::value::{NativeValue, Value};

verus! {

/// The raw bytes that stand for a value.
///
/// A boolean is one byte, 0 or 1. An integer is its two's complement in
/// little-endian order, as wide as its type. An object identifier is four
/// bytes, little-endian. Text is its UTF-8 encoding.
pub open spec fn raw_of(value: Value) -> Seq<u8> {
    match value {
        Value::Bool(b) => seq![if b { 1u8 } else { 0u8 }],
        Value::Int2(x) => spec_u16_to_le_bytes(x as u16),
        Value::Int4(x) => spec_u32_to_le_bytes(x as u32),
        Value::Int8(x) => spec_u64_to_le_bytes(x as u64),
        Value::Oid(x) => spec_u32_to_le_bytes(x),
        Value::Text(s) => encode_utf8(s),
    }
}

/// Whether `raw` stands for some value of the type `tag`.
pub open spec fn is_raw(tag: TypeTag, raw: Seq<u8>) -> bool {
    match tag {
        TypeTag::Bool => raw.len() == 1 && raw[0] <= 1,
        TypeTag::Int2 => raw.len() == 2,
        TypeTag::Int4 => raw.len() == 4,
        TypeTag::Int8 => raw.len() == 8,
        TypeTag::Oid => raw.len() == 4,
        TypeTag::Text => valid_utf8(raw),
    }
}

/// The value of type `tag` that `raw` stands for; meaningful where
/// `is_raw(tag, raw)`.
pub open spec fn value_of(tag: TypeTag, raw: Seq<u8>) -> Value
    recommends
        is_raw(tag, raw),
{
    match tag {
        TypeTag::Bool => Value::Bool(raw[0] == 1),
        TypeTag::Int2 => Value::Int2(spec_u16_from_le_bytes(raw) as i16),
        TypeTag::Int4 => Value::Int4(spec_u32_from_le_bytes(raw) as i32),
        TypeTag::Int8 => Value::Int8(spec_u64_from_le_bytes(raw) as i64),
        TypeTag::Oid => Value::Oid(spec_u32_from_le_bytes(raw)),
        TypeTag::Text => Value::Text(decode_utf8(raw)),
    }
}

/// What an [`EncodedValue`] is, mathematically: a type tag and either the raw
/// bytes of a value or nothing, for SQL null.
pub ghost struct Encoded {
    pub tag: TypeTag,
    pub raw: Option<Seq<u8>>,
}

impl Encoded {
    /// The raw bytes, where there are any, stand for a value of the tag.
    pub open spec fn well_formed(self) -> bool {
        self.raw matches Some(raw) ==> is_raw(self.tag, raw)
    }
}

/// The encoding of a native value: its own tag and its raw bytes.
pub open spec fn spec_encode(value: Value) -> Encoded {
    Encoded { tag: value.tag(), raw: Some(raw_of(value)) }
}

/// The decoding of an encoded value as the type `requested`.
///
/// Null decodes to the absent value whatever is requested. A value that is
/// there decodes only as the very type it is stored as.
pub open spec fn spec_decode(encoded: Encoded, requested: TypeTag) -> Result<
    Option<Value>,
    SpiError,
> {
    match encoded.raw {
        None => Ok(None),
        Some(raw) => if encoded.tag == requested {
            Ok(Some(value_of(encoded.tag, raw)))
        } else {
            Err(SpiError::TypeMismatch)
        },
    }
}

/// The mathematical reading of what [`decode`] returns.
pub open spec fn decoded(outcome: Result<Option<NativeValue>, SpiError>) -> Result<
    Option<Value>,
    SpiError,
> {
    match outcome {
        Ok(Some(value)) => Ok(Some(value@)),
        Ok(None) => Ok(None),
        Err(e) => Err(e),
    }
}

/// A single scalar in the host's representation: a type tag, and raw bytes
/// or SQL null.
///
/// The bytes of a value that is there always stand for a value of its tag;
/// no `EncodedValue` can be built otherwise.
#[derive(Debug, PartialEq, Eq)]
pub struct EncodedValue {
    tag: TypeTag,
    raw: Option<Vec<u8>>,
}

impl View for EncodedValue {
    type V = Encoded;

    closed spec fn view(&self) -> Encoded {
        Encoded {
            tag: self.tag,
            raw: match self.raw {
                Some(raw) => Some(raw@),
                None => None,
            },
        }
    }
}

impl EncodedValue {
    /// What holds of every `EncodedValue`: its bytes, where it has any,
    /// stand for a value of its tag.
    #[verifier::type_invariant]
    pub open spec fn wf(self) -> bool {
        self@.well_formed()
    }

    /// SQL null of the type `tag`.
    pub fn null(tag: TypeTag) -> (encoded: EncodedValue)
        ensures
            encoded@ == (Encoded { tag, raw: None }),
    {
        EncodedValue { tag, raw: None }
    }

    /// Takes a scalar as the host hands it over: its tag, its null flag and
    /// its raw bytes. The bytes of a null are ignored.
    ///
    /// Fails with `EncodingError` exactly when the value is not null and the
    /// bytes stand for no value of the tag.
    pub fn from_raw(tag: TypeTag, is_null: bool, raw: Vec<u8>) -> (outcome: Result<
        EncodedValue,
        SpiError,
    >)
        ensures
            match outcome {
                Ok(encoded) => {
                    &&& is_null || is_raw(tag, raw@)
                    &&& encoded@ == (Encoded { tag, raw: if is_null { None } else { Some(raw@) } })
                },
                Err(e) => e == SpiError::EncodingError && !is_null && !is_raw(tag, raw@),
            },
    {
        if is_null {
            return Ok(EncodedValue { tag, raw: None });
        }
        let admissible = match tag {
            TypeTag::Bool => raw.len() == 1 && raw[0] <= 1,
            TypeTag::Int2 => raw.len() == 2,
            TypeTag::Int4 => raw.len() == 4,
            TypeTag::Int8 => raw.len() == 8,
            TypeTag::Oid => raw.len() == 4,
            TypeTag::Text => str_from_utf8(raw.as_slice()).is_some(),
        };
        if admissible {
            Ok(EncodedValue { tag, raw: Some(raw) })
        } else {
            Err(SpiError::EncodingError)
        }
    }

    /// The tag the value is stored under.
    pub fn tag(&self) -> (tag: TypeTag)
        ensures
            tag == self@.tag,
    {
        self.tag
    }

    /// Whether the value is SQL null.
    pub fn is_null(&self) -> (null: bool)
        ensures
            null == (self@.raw is None),
    {
        self.raw.is_none()
    }

    /// The raw bytes of the value, or `None` for SQL null.
    pub fn raw(&self) -> (raw: Option<&[u8]>)
        ensures
            match raw {
                Some(bytes) => self@.raw == Some(bytes@),
                None => self@.raw is None,
            },
    {
        match &self.raw {
            Some(bytes) => Some(bytes.as_slice()),
            None => None,
        }
    }
}

/// `core::str::from_utf8`: reads bytes as text. std documents that it
/// succeeds exactly on well-formed UTF-8 and that the text returned is made
/// of the very bytes given.
#[verifier::external_body]
fn str_from_utf8(bytes: &[u8]) -> (text: Option<&str>)
    ensures
        text is Some <==> valid_utf8(bytes@),
        text matches Some(s) ==> s.spec_bytes() == bytes@,
{
    core::str::from_utf8(bytes).ok()
}

/// Encodes a native value under its own tag.
pub fn encode(value: &NativeValue) -> (encoded: EncodedValue)
    ensures
        encoded@ == spec_encode(value@),
{
    let raw = match value {
        NativeValue::Bool(b) => {
            let mut raw: Vec<u8> = Vec::new();
            raw.push(if *b { 1u8 } else { 0u8 });
            raw
        },
        NativeValue::Int2(x) => u16_to_le_bytes(*x as u16),
        NativeValue::Int4(x) => u32_to_le_bytes(*x as u32),
        NativeValue::Int8(x) => u64_to_le_bytes(*x as u64),
        NativeValue::Oid(x) => u32_to_le_bytes(*x),
        NativeValue::Text(s) => s.as_str().as_bytes_vec(),
    };
    proof {
        law_raw_round_trip(value@);
        assert(raw@ =~= raw_of(value@));
    }
    EncodedValue { tag: value.tag(), raw: Some(raw) }
}

/// Decodes an encoded value as the type `requested`.
///
/// Null gives the absent value whatever is requested. A value that is there
/// gives `TypeMismatch` unless it is stored as `requested`; nothing is widened
/// or narrowed.
pub fn decode(encoded: &EncodedValue, requested: TypeTag) -> (outcome: Result<
    Option<NativeValue>,
    SpiError,
>)
    ensures
        decoded(outcome) == spec_decode(encoded@, requested),
{
    proof {
        use_type_invariant(encoded);
    }
    match &encoded.raw {
        None => Ok(None),
        Some(raw) => {
            if encoded.tag != requested {
                return Err(SpiError::TypeMismatch);
            }
            let bytes = raw.as_slice();
            let value = match encoded.tag {
                TypeTag::Bool => NativeValue::Bool(bytes[0] == 1),
                TypeTag::Int2 => NativeValue::Int2(u16_from_le_bytes(bytes) as i16),
                TypeTag::Int4 => NativeValue::Int4(u32_from_le_bytes(bytes) as i32),
                TypeTag::Int8 => NativeValue::Int8(u64_from_le_bytes(bytes) as i64),
                TypeTag::Oid => NativeValue::Oid(u32_from_le_bytes(bytes)),
                TypeTag::Text => {
                    let text = str_from_utf8(bytes).unwrap();
                    proof {
                        vstd::utf8::encode_utf8_decode_utf8(text@);
                    }
                    NativeValue::Text(String::from_str(text))
                },
            };
            Ok(Some(value))
        },
    }
}

/// Raw bytes made from a value stand for a value of its tag, and for that
/// very value.
pub proof fn law_raw_round_trip(value: Value)
    ensures
        is_raw(value.tag(), raw_of(value)),
        value_of(value.tag(), raw_of(value)) == value,
{
    vstd::bytes::lemma_auto_spec_u16_to_from_le_bytes();
    vstd::bytes::lemma_auto_spec_u32_to_from_le_bytes();
    vstd::bytes::lemma_auto_spec_u64_to_from_le_bytes();
    match value {
        Value::Bool(b) => {},
        Value::Int2(x) => {
            let u = x as u16;
            assert(u as i16 == x) by (bit_vector)
                requires
                    u == x as u16,
            ;
        },
        Value::Int4(x) => {
            let u = x as u32;
            assert(u as i32 == x) by (bit_vector)
                requires
                    u == x as u32,
            ;
        },
        Value::Int8(x) => {
            let u = x as u64;
            assert(u as i64 == x) by (bit_vector)
                requires
                    u == x as u64,
            ;
        },
        Value::Oid(x) => {},
        Value::Text(s) => {
            vstd::utf8::encode_utf8_valid_utf8(s);
            vstd::utf8::encode_utf8_decode_utf8(s);
        },
    }
}

/// The round trip of the codec: a value that is encoded and then decoded as
/// its own type comes back unchanged.
pub proof fn law_encode_decode_round_trip(value: Value)
    ensures
        spec_encode(value).well_formed(),
        spec_decode(spec_encode(value), value.tag()) == Ok::<Option<Value>, SpiError>(
            Some(value),
        ),
{
    law_raw_round_trip(value);
}

/// The round trip the other way: raw bytes that stand for a value of a tag
/// are the bytes made from that value, so no two byte strings stand for the
/// same value.
pub proof fn law_value_of_round_trip(tag: TypeTag, raw: Seq<u8>)
    requires
        is_raw(tag, raw),
    ensures
        value_of(tag, raw).tag() == tag,
        raw_of(value_of(tag, raw)) == raw,
{
    vstd::bytes::lemma_auto_spec_u16_to_from_le_bytes();
    vstd::bytes::lemma_auto_spec_u32_to_from_le_bytes();
    vstd::bytes::lemma_auto_spec_u64_to_from_le_bytes();
    match tag {
        TypeTag::Bool => {
            assert(raw_of(value_of(tag, raw)) =~= raw);
        },
        TypeTag::Int2 => {
            let u = spec_u16_from_le_bytes(raw);
            let x = u as i16;
            assert(x as u16 == u) by (bit_vector)
                requires
                    x == u as i16,
            ;
        },
        TypeTag::Int4 => {
            let u = spec_u32_from_le_bytes(raw);
            let x = u as i32;
            assert(x as u32 == u) by (bit_vector)
                requires
                    x == u as i32,
            ;
        },
        TypeTag::Int8 => {
            let u = spec_u64_from_le_bytes(raw);
            let x = u as i64;
            assert(x as u64 == u) by (bit_vector)
                requires
                    x == u as i64,
            ;
        },
        TypeTag::Oid => {},
        TypeTag::Text => {
            vstd::utf8::decode_utf8_encode_utf8(raw);
        },
    }
}

/// An encoded value never decodes as a type other than its own: the outcome
/// is `TypeMismatch`, whatever the value.
pub proof fn law_decode_mismatch(value: Value, requested: TypeTag)
    requires
        requested != value.tag(),
    ensures
        spec_decode(spec_encode(value), requested) == Err::<Option<Value>, SpiError>(
            SpiError::TypeMismatch,
        ),
{
}

/// Whatever is stored and not null, made by this codec or handed over by the
/// host, decodes only as the type it is stored as.
pub proof fn law_decode_stored_mismatch(encoded: Encoded, requested: TypeTag)
    requires
        encoded.raw is Some,
        encoded.tag != requested,
    ensures
        spec_decode(encoded, requested) == Err::<Option<Value>, SpiError>(SpiError::TypeMismatch),
{
}

/// Null decodes to the absent value under every requested type.
pub proof fn law_decode_null(tag: TypeTag, requested: TypeTag)
    ensures
        spec_decode(Encoded { tag, raw: None }, requested) == Ok::<Option<Value>, SpiError>(None),
{
}

} // verus!
