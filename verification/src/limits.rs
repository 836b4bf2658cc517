//! Which documents the encoder takes.
//!
//! A document lists its keys apart from its values, and the list can be edited.
//! The encoder panics where a key that is listed has no value, at any depth, and
//! where the length that it writes before a text, or before code with its scope,
//! is one more than `i32` has. This module tells whether it would get to that.

use vstd::prelude::*;
use vstd::pervasive::unreached;
use vstd::utf8::encode_utf8;
use bson::{Bson, Document};

use crate::document::{contents, encode, encoding, listed_keys, look, value, value_at, Contents};
use crate::document::{Look, Value};

verus! {

/// Whether one more than this length does not overflow, once it was cut down to
/// the 32 bits of an `i32`.
pub open spec fn length_fits(length: nat) -> bool {
    length % 0x1_0000_0000 != 0x7fff_ffff
}

/// Whether the encoder takes a value.
pub open spec fn encodes_value(value: Value) -> bool
    decreases value,
{
    match value {
        Value::Text(text) => length_fits(encode_utf8(text).len()),
        Value::Items(items) => forall|i: int|
            0 <= i < items.len() ==> encodes_value(#[trigger] items[i]),
        Value::Nested(document) => encodes(document),
        Value::Code(text, scope) => {
            &&& length_fits(encode_utf8(text).len())
            &&& encodes(scope)
            &&& length_fits(5 + encode_utf8(text).len() + encoding(scope.entries).len())
        },
        Value::Plain => true,
    }
}

/// Whether the encoder takes a document.
pub open spec fn encodes(document: Contents) -> bool
    decreases document,
{
    forall|i: int| #![trigger document.listed[i]]
        0 <= i < document.listed.len() ==> {
            &&& document.listed[i].1 matches Some(value)
            &&& encodes_value(value)
        }
}

/// Whether a value is as the decoder makes them: the documents in it are whole,
/// and the length of each text can be written.
pub open spec fn whole_value(value: Value) -> bool
    decreases value,
{
    match value {
        Value::Text(text) => length_fits(encode_utf8(text).len()),
        Value::Items(items) => forall|i: int|
            0 <= i < items.len() ==> whole_value(#[trigger] items[i]),
        Value::Nested(document) => whole(document),
        Value::Code(text, scope) => length_fits(encode_utf8(text).len()) && whole(scope),
        Value::Plain => true,
    }
}

/// Whether a document is as the decoder makes them: every key that it lists has a
/// value, at every depth, and it has no other value.
pub open spec fn whole(document: Contents) -> bool
    decreases document,
{
    &&& document.empty == (document.listed.len() == 0)
    &&& document.entries.len() == document.listed.len()
    &&& forall|i: int| #![trigger document.listed[i]]
        0 <= i < document.listed.len() ==> {
            &&& document.entries[i].key == document.listed[i].0
            &&& document.listed[i].1 matches Some(value)
            &&& whole_value(value)
        }
}

/// Whether the length of each piece of code with its scope in a value can be
/// written.
pub open spec fn scopes_fit_in_value(value: Value) -> bool
    decreases value,
{
    match value {
        Value::Items(items) => forall|i: int|
            0 <= i < items.len() ==> scopes_fit_in_value(#[trigger] items[i]),
        Value::Nested(document) => scopes_fit(document),
        Value::Code(text, scope) => {
            &&& scopes_fit(scope)
            &&& length_fits(5 + encode_utf8(text).len() + encoding(scope.entries).len())
        },
        _ => true,
    }
}

/// Whether the length of each piece of code with its scope in a document can be
/// written.
pub open spec fn scopes_fit(document: Contents) -> bool
    decreases document,
{
    forall|i: int| #![trigger document.listed[i]]
        0 <= i < document.listed.len() ==> (document.listed[i].1 matches Some(value)
            ==> scopes_fit_in_value(value))
}

proof fn lemma_whole_value_encodes(value: Value)
    requires
        whole_value(value),
        scopes_fit_in_value(value),
    ensures
        encodes_value(value),
    decreases value,
{
    match value {
        Value::Items(items) => {
            assert forall|i: int| 0 <= i < items.len() implies encodes_value(
                #[trigger] items[i],
            ) by {
                lemma_whole_value_encodes(items[i]);
            }
        },
        Value::Nested(document) => lemma_whole_encodes(document),
        Value::Code(_, scope) => lemma_whole_encodes(scope),
        _ => {},
    }
}

/// The encoder takes whole documents, as long as the length of each piece of code
/// with its scope can be written.
pub proof fn lemma_whole_encodes(document: Contents)
    requires
        whole(document),
        scopes_fit(document),
    ensures
        encodes(document),
    decreases document,
{
    assert forall|i: int| #![trigger document.listed[i]]
        0 <= i < document.listed.len() implies {
        &&& document.listed[i].1 matches Some(value)
        &&& encodes_value(value)
    } by {
        lemma_whole_value_encodes(document.listed[i].1->0);
    }
}

fn is_length(length: u128) -> (result: bool)
    ensures
        result == length_fits(length as nat),
{
    length % 0x1_0000_0000 != 0x7fff_ffff
}

fn encodable_value(bson: &Bson) -> (result: bool)
    ensures
        result == encodes_value(value(*bson)),
    decreases value(*bson),
{
    match look(bson) {
        Look::Text(text) => is_length(text.as_str().as_bytes().len() as u128),
        Look::Items(items) => {
            let mut i: usize = 0;
            while i < items.len()
                invariant
                    i <= items.len(),
                    value(*bson) == Value::Items(items@.map_values(|item: Bson| value(item))),
                    forall|j: int| 0 <= j < i ==> encodes_value(value(#[trigger] items[j])),
                decreases items.len() - i,
            {
                proof {
                    let all = items@.map_values(|item: Bson| value(item));
                    assert(all[i as int] == value(items[i as int]));
                    assert(decreases_to!(value(*bson) => value(*bson)->Items_0));
                    assert(decreases_to!(all => all[i as int]));
                }
                if !encodable_value(&items[i]) {
                    return false;
                }
                i = i + 1;
            }
            true
        },
        Look::Nested(document) => {
            proof {
                assert(decreases_to!(value(*bson) => value(*bson)->Nested_0));
            }
            encodable(document)
        },
        Look::Code(text, scope) => {
            proof {
                assert(decreases_to!(value(*bson) => value(*bson)->Code_1));
            }
            let length: u128 = text.as_str().as_bytes().len() as u128;
            if !is_length(length) || !encodable(scope) {
                return false;
            }
            match encode(scope) {
                Ok(bytes) => is_length(5 + length + bytes.len() as u128),
                Err(_) => unreached(),
            }
        },
        Look::Plain => true,
    }
}

/// Tells whether the encoder takes a document.
pub fn encodable(document: &Document) -> (result: bool)
    ensures
        result == encodes(contents(*document)),
    decreases contents(*document),
{
    let ghost listed = contents(*document).listed;
    let keys = listed_keys(document);
    let mut i: usize = 0;
    while i < keys.len()
        invariant
            i <= keys.len() == listed.len(),
            listed == contents(*document).listed,
            forall|j: int| 0 <= j < keys.len() ==> keys[j]@ == (#[trigger] listed[j]).0,
            forall|j: int| #![trigger listed[j]]
                0 <= j < i ==> {
                    &&& listed[j].1 matches Some(value)
                    &&& encodes_value(value)
                },
        decreases keys.len() - i,
    {
        match value_at(document, keys[i].as_str()) {
            None => {
                assert(listed[i as int].1 is None);
                return false;
            },
            Some(bson) => {
                proof {
                    assert(listed[i as int].1 == Some(value(*bson)));
                    assert(decreases_to!(contents(*document) => listed));
                    assert(decreases_to!(listed => listed[i as int]));
                    assert(decreases_to!(listed[i as int] => listed[i as int].1));
                    assert(decreases_to!(listed[i as int].1 => listed[i as int].1->0));
                }
                if !encodable_value(bson) {
                    return false;
                }
            },
        }
        i = i + 1;
    }
    true
}

} // verus!
