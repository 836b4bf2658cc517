//! Documents and their binary form.
//!
//! The `bson` crate holds documents and turns them into bytes and back. This
//! module declares its types and names what its functions give.

use vstd::prelude::*;
use vstd::utf8::encode_utf8;
use bson::{Bson, DecoderError, Document, EncoderError};

use crate::error::{Error, ErrorView};
use crate::limits::{encodes, whole};
use crate::wire::decodes;

verus! {

/// `bson::Document`: an ordered set of keys, each with its value.
#[verifier::external_type_specification]
#[verifier::external_body]
pub struct ExDocument(bson::Document);

/// `bson::EncoderError`: why a document could not be written as bytes.
#[verifier::external_type_specification]
#[verifier::external_body]
pub struct ExEncoderError(bson::EncoderError);

/// `bson::DecoderError`: why bytes could not be read as a document.
#[verifier::external_type_specification]
#[verifier::external_body]
pub struct ExDecoderError(bson::DecoderError);

/// `bson::Bson`: the value of a key.
#[verifier::external_type_specification]
#[verifier::external_body]
pub struct ExBson(bson::Bson);

/// What a document holds.
pub struct Contents {
    /// The keys that it lists, in order, each with its value, if it has one.
    pub listed: Seq<(Seq<char>, Option<Value>)>,
    /// Of the keys listed those with a value, in order, each with that value as it
    /// is written.
    pub entries: Seq<Entry>,
    /// Whether no key has a value, listed or not.
    pub empty: bool,
}

/// A key with its value as it is written.
pub struct Entry {
    pub key: Seq<char>,
    /// What stands for the type of the value.
    pub tag: u8,
    /// The bytes of the value.
    pub bytes: Seq<u8>,
}

/// What a value is made of, as far as the encoder is particular about it.
pub enum Value {
    /// A text, or code without a scope.
    Text(Seq<char>),
    /// An array.
    Items(Seq<Value>),
    /// A document.
    Nested(Contents),
    /// Code with its scope.
    Code(Seq<char>, Contents),
    /// Anything else.
    Plain,
}

/// What a `bson::Document` holds.
pub uninterp spec fn contents(document: bson::Document) -> Contents;

/// What a `bson::Bson` is made of.
pub uninterp spec fn value(bson: bson::Bson) -> Value;

/// An entry in its binary form: the type, the key up to a zero byte, the value.
pub open spec fn element(entry: Entry) -> Seq<u8> {
    seq![entry.tag] + encode_utf8(entry.key) + seq![0u8] + entry.bytes
}

/// Entries in their binary form.
pub open spec fn elements(entries: Seq<Entry>) -> Seq<u8>
    decreases entries.len(),
{
    if entries.len() == 0 {
        Seq::empty()
    } else {
        elements(entries.drop_last()) + element(entries.last())
    }
}

/// The low four bytes of a length, the lowest first.
pub open spec fn length_bytes(length: nat) -> Seq<u8> {
    seq![
        (length % 0x100) as u8,
        (length / 0x100 % 0x100) as u8,
        (length / 0x1_0000 % 0x100) as u8,
        (length / 0x100_0000 % 0x100) as u8,
    ]
}

/// The binary form of a document with these entries: how many bytes it has, the
/// entries, a zero byte.
pub open spec fn encoding(entries: Seq<Entry>) -> Seq<u8> {
    length_bytes(elements(entries).len() + 5) + elements(entries) + seq![0u8]
}

/// What `bson::decode_document` gives for these bytes: what the document that it
/// reads holds, or its error.
pub uninterp spec fn decoding(bytes: Seq<u8>) -> Result<Contents, bson::DecoderError>;

/// What is read from these bytes: a whole document, or the error of the decoder.
/// The decoder gives no document that is not whole, so that nothing ever stands
/// in for one.
pub open spec fn reading(bytes: Seq<u8>) -> Result<Contents, DecoderError> {
    match decoding(bytes) {
        Ok(read) => Ok(
            if whole(read) {
                read
            } else {
                Contents { listed: Seq::empty(), entries: Seq::empty(), empty: true }
            },
        ),
        Err(error) => Err(error),
    }
}

/// What the result of encoding means.
pub open spec fn encoded_view(encoded: Result<Vec<u8>, EncoderError>) -> Result<
    Seq<u8>,
    EncoderError,
> {
    match encoded {
        Ok(bytes) => Ok(bytes@),
        Err(error) => Err(error),
    }
}

/// What the result of decoding means.
pub open spec fn decoded_view(decoded: Result<Document, DecoderError>) -> Result<
    Contents,
    DecoderError,
> {
    match decoded {
        Ok(document) => Ok(contents(document)),
        Err(error) => Err(error),
    }
}

/// What was decoded, or the failure of an operation that needed it.
pub open spec fn read_outcome(decoded: Result<Contents, DecoderError>) -> Result<
    Contents,
    ErrorView,
> {
    match decoded {
        Ok(read) => Ok(read),
        Err(error) => Err(ErrorView::BsonDecoding(error)),
    }
}

/// What a document that was read, or the failure to read it, means.
pub open spec fn read_view(read: Result<Document, Error>) -> Result<Contents, ErrorView> {
    match read {
        Ok(document) => Ok(contents(document)),
        Err(error) => Err(error@),
    }
}

/// The document that was decoded, or the failure of an operation that needed it.
pub fn read(decoded: Result<Document, DecoderError>) -> (result: Result<Document, Error>)
    ensures
        read_view(result) == read_outcome(decoded_view(decoded)),
        result is Ok ==> decoded == Ok::<Document, DecoderError>(result->Ok_0),
{
    match decoded {
        Ok(document) => Ok(document),
        Err(error) => Err(Error::BsonDecoding(error)),
    }
}

/// `bson::encode_document` into a new vector: the binary form of the document. It
/// fails only where its writer does, which a vector does not. It panics on the
/// documents that `encodes` leaves out.
#[verifier::external_body]
pub(crate) fn encode(document: &Document) -> (result: Result<Vec<u8>, EncoderError>)
    requires
        encodes(contents(*document)),
    ensures
        result is Ok,
        result->Ok_0@ == encoding(contents(*document).entries),
{
    let mut bytes: Vec<u8> = Vec::new();
    match bson::encode_document(&mut bytes, document) {
        Ok(()) => Ok(bytes),
        Err(error) => Err(error),
    }
}

/// `bson::decode_document` on a slice. What it reads, or its error, depends on
/// the bytes alone. It puts each key that it reads in with its value, and no text
/// of it has more than `i32::MAX - 1` bytes, so that a document that it gives is
/// whole. It panics on the bytes that `decodes` leaves out.
#[verifier::external_body]
pub(crate) fn decode(bytes: &[u8]) -> (result: Result<Document, DecoderError>)
    requires
        decodes(bytes@),
    ensures
        decoded_view(result) == decoding(bytes@),
        result is Ok ==> whole(contents(result->Ok_0)),
{
    let mut rest: &[u8] = bytes;
    bson::decode_document(&mut rest)
}

/// `bson::Document::is_empty`: whether no key has a value. It does not look at the
/// list of keys.
#[verifier::external_body]
pub(crate) fn is_empty(document: &Document) -> (result: bool)
    ensures
        result == contents(*document).empty,
{
    document.is_empty()
}

/// The field `keys` of `bson::Document`: the keys that the document lists, in
/// order.
#[verifier::external_body]
pub(crate) fn listed_keys(document: &Document) -> (keys: Vec<String>)
    ensures
        keys.len() == contents(*document).listed.len(),
        forall|i: int|
            0 <= i < keys.len() ==> keys[i]@ == (#[trigger] contents(*document).listed[i]).0,
{
    document.keys.clone()
}

/// `bson::Document::get`: the value of a key, if it has one.
#[verifier::external_body]
pub(crate) fn value_at<'a>(document: &'a Document, key: &str) -> (result: Option<&'a Bson>)
    ensures
        forall|i: int| #![trigger contents(*document).listed[i]]
            0 <= i < contents(*document).listed.len() && contents(*document).listed[i].0 == key@
                ==> contents(*document).listed[i].1 == match result {
                Some(bson) => Some(value(*bson)),
                None => None,
            },
{
    document.get(key)
}

/// A value as it is looked at.
pub(crate) enum Look<'a> {
    Text(&'a String),
    Items(&'a Vec<Bson>),
    Nested(&'a Document),
    Code(&'a String, &'a Document),
    Plain,
}

/// The variants of `bson::Bson`: which one a value is, and what is in it.
#[verifier::external_body]
pub(crate) fn look<'a>(bson: &'a Bson) -> (result: Look<'a>)
    ensures
        value(*bson) == match result {
            Look::Text(text) => Value::Text(text@),
            Look::Items(items) => Value::Items(items@.map_values(|item: Bson| value(item))),
            Look::Nested(document) => Value::Nested(contents(*document)),
            Look::Code(text, scope) => Value::Code(text@, contents(*scope)),
            Look::Plain => Value::Plain,
        },
{
    match bson {
        Bson::String(text) => Look::Text(text),
        Bson::JavaScriptCode(text) => Look::Text(text),
        Bson::Array(items) => Look::Items(items),
        Bson::Document(document) => Look::Nested(document),
        Bson::JavaScriptCodeWithScope(text, scope) => Look::Code(text, scope),
        _ => Look::Plain,
    }
}

} // verus!
