//! The trusted boundary around the generic JSON library.
//!
//! The telemetry wire format is JSON, and the generic JSON decoding library
//! is consumed as an opaque "decode bytes into a structured document"
//! capability.  What a given field of a given document holds is a function
//! of the document bytes alone, so each extraction below is named by an
//! uninterpreted spec function over the bytes; the wrappers tie the names
//! to the library's calls, and everything that interprets the extracted
//! values (number-text parsing, banding, dispatch) is verified code
//! elsewhere.

use vstd::prelude::*;

verus! {

#[verifier::external_type_specification]
#[verifier::external_body]
pub struct ExValue(serde_json::Value);

#[verifier::external_type_specification]
#[verifier::external_body]
pub struct ExJsonError(serde_json::Error);

/// Whether a byte sequence is one well-formed JSON document, exactly as
/// serde_json's parser accepts it (one JSON value with nothing but
/// whitespace after it, within the parser's nesting limit).
pub uninterp spec fn json_document(bytes: Seq<u8>) -> bool;

/// The field `key` of the top-level section `section` of the document
/// `bytes`, read as a u64; absent when the document has no such section
/// or field, or the field is not a non-negative integer that fits in a
/// u64 (a number written as a float, such as `256.0`, is no integer to
/// the parser).
pub uninterp spec fn json_field_u64(bytes: Seq<u8>, section: Seq<char>, key: Seq<char>) -> Option<
    u64,
>;

/// The field `key` of the top-level section `section` of the document
/// `bytes`, read as text; absent when there is no such field or it is not
/// a string.
pub uninterp spec fn json_field_text(bytes: Seq<u8>, section: Seq<char>, key: Seq<char>) -> Option<
    Seq<char>,
>;

/// The decimal text of the field `key` of the top-level section `section`
/// of the document `bytes`; absent when there is no such field or it is
/// not a number.
pub uninterp spec fn json_field_number_text(
    bytes: Seq<u8>,
    section: Seq<char>,
    key: Seq<char>,
) -> Option<Seq<char>>;

/// The decimal text of element `index` of the array field `key` of the
/// top-level section `section` of the document `bytes`; absent when there
/// is no such field, it is not an array, the array is too short, or the
/// element is not a number.
pub uninterp spec fn json_item_number_text(
    bytes: Seq<u8>,
    section: Seq<char>,
    key: Seq<char>,
    index: int,
) -> Option<Seq<char>>;

/// A structured document together with the bytes it was parsed from.
///
/// The fields are private: only [`parse_document`] constructs one, and it
/// records exactly the bytes the value was parsed from, so the extraction
/// contracts below may speak of them.
pub struct ParsedDoc {
    value: serde_json::Value,
    raw: Ghost<Seq<u8>>,
}

impl ParsedDoc {
    /// The bytes this document was parsed from.
    pub closed spec fn bytes(&self) -> Seq<u8> {
        self.raw@
    }
}

/// Relies on serde_json::from_slice::<Value>: deserializing into `Value`
/// depends on the bytes alone and succeeds exactly when they are one
/// well-formed JSON document as the parser accepts it.
#[verifier::external_body]
fn parse_value(bytes: &[u8]) -> (r: Result<serde_json::Value, serde_json::Error>)
    ensures
        r is Ok <==> json_document(bytes@),
{
    serde_json::from_slice(bytes)
}

/// Parses one datagram payload, pairing the structured value with the
/// bytes it came from.
pub(crate) fn parse_document(bytes: &[u8]) -> (r: Result<ParsedDoc, serde_json::Error>)
    ensures
        r is Ok <==> json_document(bytes@),
        r is Ok ==> (r->Ok_0).bytes() == bytes@,
{
    match parse_value(bytes) {
        Ok(value) => Ok(ParsedDoc { value, raw: Ghost(bytes@) }),
        Err(e) => Err(e),
    }
}

/// Relies on serde_json::Value::get with a string index (`Some` exactly
/// when the value is an object holding the key) and Value::as_u64 (`Some`
/// exactly for a non-negative integer).  The result is a function of the
/// document bytes and the two keys alone.
#[verifier::external_body]
pub(crate) fn doc_u64(doc: &ParsedDoc, section: &str, key: &str) -> (r: Option<u64>)
    ensures
        r == json_field_u64(doc.bytes(), section@, key@),
{
    doc.value.get(section).and_then(|s| s.get(key)).and_then(|f| f.as_u64())
}

/// Relies on serde_json::Value::get and Value::as_str (`Some` exactly
/// when the field is a string).  The result is a function of the document
/// bytes and the two keys alone.
#[verifier::external_body]
pub(crate) fn doc_text(doc: &ParsedDoc, section: &str, key: &str) -> (r: Option<String>)
    ensures
        r is Some <==> json_field_text(doc.bytes(), section@, key@) is Some,
        r is Some ==> (r->0)@ == json_field_text(doc.bytes(), section@, key@)->0,
{
    doc.value.get(section).and_then(|s| s.get(key)).and_then(|f| f.as_str()).map(str::to_owned)
}

/// Relies on serde_json::Value::get, Value::as_number (`Some` exactly when
/// the field is a number) and serde_json's Display for Number (the number
/// rendered as it appears in JSON text: plain decimal digits for
/// integers, a shortest decimal form for floats).  The result is a
/// function of the document bytes and the two keys alone; the verified
/// decimal parser interprets the text.
#[verifier::external_body]
pub(crate) fn doc_number_text(doc: &ParsedDoc, section: &str, key: &str) -> (r: Option<String>)
    ensures
        r is Some <==> json_field_number_text(doc.bytes(), section@, key@) is Some,
        r is Some ==> (r->0)@ == json_field_number_text(doc.bytes(), section@, key@)->0,
{
    doc.value
        .get(section)
        .and_then(|s| s.get(key))
        .and_then(|f| f.as_number())
        .map(|n| n.to_string())
}

/// Relies on serde_json::Value::get, Value::as_array (`Some` exactly when
/// the field is an array), slice indexing into it, Value::as_number and
/// serde_json's Display for Number, as in [`doc_number_text`].  The
/// result is a function of the document bytes, the two keys and the index
/// alone.
#[verifier::external_body]
pub(crate) fn doc_item_number_text(
    doc: &ParsedDoc,
    section: &str,
    key: &str,
    index: usize,
) -> (r: Option<String>)
    ensures
        r is Some <==> json_item_number_text(doc.bytes(), section@, key@, index as int) is Some,
        r is Some ==> (r->0)@ == json_item_number_text(
            doc.bytes(),
            section@,
            key@,
            index as int,
        )->0,
{
    doc.value
        .get(section)
        .and_then(|s| s.get(key))
        .and_then(|f| f.as_array())
        .and_then(|a| a.get(index))
        .and_then(|e| e.as_number())
        .map(|n| n.to_string())
}

} // verus!
