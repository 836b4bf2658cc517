//! What the binary form of a document is made of, and which bytes and documents
//! are taken.

use vstd::prelude::*;
use vstd::utf8::{encode_utf8, valid_utf8};
use bson::Document;

use crate::document::{contents, elements, encoding, Contents, Entry, Value};
use crate::limits::{encodable, encodes, encodes_value};
use crate::wire::{
    decimal, decodable, decodes, next_index, scan_cstring, scan_document, scan_entries, scan_value,
    zero_from, Scan,
};

verus! {

/// The number that four bytes are, the low byte first.
pub open spec fn number_at(bytes: Seq<u8>, at: int) -> int {
    bytes[at] + 256 * bytes[at + 1] + 65536 * bytes[at + 2] + 16777216 * bytes[at + 3]
}

proof fn lemma_elements_joined(first: Seq<Entry>, second: Seq<Entry>)
    ensures
        elements(first + second) == elements(first) + elements(second),
    decreases second.len(),
{
    if second.len() == 0 {
        assert(first + second =~= first);
        assert(elements(first) + elements(second) =~= elements(first));
    } else {
        lemma_elements_joined(first, second.drop_last());
        assert((first + second).drop_last() =~= first + second.drop_last());
        assert((first + second).last() == second.last());
        assert(elements(first + second) =~= elements(first) + elements(second));
    }
}

/// The binary form of a document begins with its own length and ends in a zero
/// byte. Between them the entries stand in order, each as its type, its key, a zero
/// byte and the bytes of its value.
pub proof fn law_binary_form(first: Seq<Entry>, second: Seq<Entry>, entry: Entry)
    ensures
        encoding(first).len() == 5 + elements(first).len(),
        encoding(first).len() < 4294967296 ==> number_at(encoding(first), 0) == encoding(
            first,
        ).len(),
        encoding(first).last() == 0,
        encoding(first).subrange(4, encoding(first).len() - 1) == elements(first),
        elements(first + second) == elements(first) + elements(second),
        elements(seq![entry]) == seq![entry.tag] + encode_utf8(entry.key) + seq![0u8]
            + entry.bytes,
        elements(Seq::empty()).len() == 0,
{
    lemma_elements_joined(first, second);
    reveal_with_fuel(elements, 2);
    assert(seq![entry].drop_last() =~= Seq::empty());
    assert(elements(seq![entry]) =~= seq![entry.tag] + encode_utf8(entry.key) + seq![0u8]
        + entry.bytes);
    assert(encoding(first).subrange(4, encoding(first).len() - 1) =~= elements(first));
    let n = elements(first).len() + 5;
    if n < 4294967296 {
        assert(n == n % 0x100 + 256 * (n / 0x100 % 0x100) + 65536 * (n / 0x1_0000 % 0x100)
            + 16777216 * (n / 0x100_0000 % 0x100)) by (nonlinear_arith)
            requires
                0 <= n < 4294967296,
        ;
    }
}

/// The encoder takes a document exactly where every key that is listed has a value
/// and it takes that value.
pub proof fn law_encodable(document: &Document, result: bool)
    requires
        call_ensures(encodable, (document,), result),
    ensures
        result <==> forall|i: int| #![trigger contents(*document).listed[i]]
            0 <= i < contents(*document).listed.len() ==> contents(*document).listed[i].1 is Some
                && encodes_value(contents(*document).listed[i].1->0),
        forall|i: int| #![trigger contents(*document).listed[i]]
            0 <= i < contents(*document).listed.len() && contents(*document).listed[i].1 is None
                ==> !result,
        contents(*document).listed.len() == 0 ==> result,
{
}

/// The encoder takes a text unless one more than its length does not fit, an array
/// where it takes each item, a document where it takes that, code where it takes
/// its text and its scope and the length of both can be written, and anything else.
pub proof fn law_encodes_value(
    text: Seq<char>,
    items: Seq<Value>,
    document: Contents,
    i: int,
)
    ensures
        encodes_value(Value::Text(text)) <==> encode_utf8(text).len() % 4294967296 != 2147483647,
        encode_utf8(text).len() < 2147483647 ==> encodes_value(Value::Text(text)),
        encodes_value(Value::Items(items)) <==> forall|j: int|
            0 <= j < items.len() ==> encodes_value(#[trigger] items[j]),
        0 <= i < items.len() && !encodes_value(items[i]) ==> !encodes_value(Value::Items(items)),
        encodes_value(Value::Nested(document)) <==> encodes(document),
        encodes_value(Value::Code(text, document)) <==> encodes_value(Value::Text(text))
            && encodes(document) && (encode_utf8(text).len() + elements(document.entries).len()
            + 10) % 4294967296 != 2147483647,
        encodes_value(Value::Plain),
{
    assert(encoding(document.entries).len() == 5 + elements(document.entries).len());
    let array = Value::Items(items);
    if encodes_value(array) {
        assert forall|j: int| 0 <= j < items.len() implies encodes_value(#[trigger] items[j]) by {
            assert(encodes_value(array->Items_0[j]));
        }
    }
}

proof fn lemma_zero_from(bytes: Seq<u8>, at: int)
    requires
        0 <= at,
    ensures
        match zero_from(bytes, at) {
            Some(end) => at <= end < bytes.len() && bytes[end] == 0 && forall|i: int|
                at <= i < end ==> bytes[i] != 0,
            None => forall|i: int| at <= i < bytes.len() ==> bytes[i] != 0,
        },
    decreases bytes.len() - at,
{
    if at < bytes.len() && bytes[at] != 0 {
        lemma_zero_from(bytes, at + 1);
    }
}

/// A text without a length ends at the first zero byte.
pub proof fn law_texts_end_at_the_first_zero_byte(bytes: Seq<u8>, at: int, end: int)
    requires
        0 <= at,
    ensures
        zero_from(bytes, at) == Some(end) <==> at <= end < bytes.len() && bytes[end] == 0 && (
        forall|i: int| at <= i < end ==> bytes[i] != 0),
        zero_from(bytes, at) is None <==> forall|i: int|
            at <= i < bytes.len() ==> bytes[i] != 0,
{
    lemma_zero_from(bytes, at);
}

/// How far a value of a fixed size reaches, or that it is cut off.
pub open spec fn fixed(bytes: Seq<u8>, at: int, size: int) -> Scan<int> {
    if at + size <= bytes.len() {
        Scan::Goes(at + size)
    } else {
        Scan::Stops
    }
}

/// How far the values of each type reach. The decoder panics on a text or code
/// whose length is below one, on binary data whose length is below zero, and on a
/// date that the calendar does not have or that is before 1970 and no whole second.
pub proof fn law_values(bytes: Seq<u8>, at: int)
    requires
        0 <= at <= bytes.len(),
    ensures
        scan_value(bytes, 0x01, at) == fixed(bytes, at, 8),
        scan_value(bytes, 0x07, at) == fixed(bytes, at, 12),
        scan_value(bytes, 0x08, at) == fixed(bytes, at, 1),
        scan_value(bytes, 0x0a, at) == fixed(bytes, at, 0),
        scan_value(bytes, 0x10, at) == fixed(bytes, at, 4),
        scan_value(bytes, 0x11, at) == fixed(bytes, at, 8),
        scan_value(bytes, 0x12, at) == fixed(bytes, at, 8),
        scan_value(bytes, 0x02, at) == text(bytes, at),
        scan_value(bytes, 0x0d, at) == text(bytes, at),
        scan_value(bytes, 0x03, at) == scan_document(bytes, at, false),
        scan_value(bytes, 0x04, at) == scan_document(bytes, at, true),
        scan_value(bytes, 0x05, at) == if at + 5 > bytes.len() {
            Scan::Stops
        } else if bytes[at + 3] >= 128 {
            Scan::Panics
        } else if at + 5 + number_at(bytes, at) > bytes.len() {
            Scan::Goes(bytes.len() as int)
        } else {
            Scan::Goes(at + 5 + number_at(bytes, at))
        },
        scan_value(bytes, 0x09, at) == if at + 8 > bytes.len() {
            Scan::Stops
        } else if is_in_calendar(
            number_at(bytes, at) + 4294967296 * number_at(bytes, at + 4) - if bytes[at + 7]
                >= 128 {
                18446744073709551616int
            } else {
                0
            },
        ) {
            Scan::Goes(at + 8)
        } else {
            Scan::Panics
        },
        scan_value(bytes, 0x0b, at) == match terminated(bytes, at) {
            Scan::Goes(next) => terminated(bytes, next),
            ended => ended,
        },
        scan_value(bytes, 0x0f, at) == match text(bytes, at) {
            Scan::Goes(next) => scan_document(bytes, next, false),
            ended => ended,
        },
        forall|tag: u8| #[trigger]
            is_other(tag) ==> scan_value(bytes, tag, at) == Scan::<int>::Stops,
{
}

/// Whether no type stands for a tag that has values.
pub open spec fn is_other(tag: u8) -> bool {
    tag == 0x00 || tag == 0x06 || tag == 0x0c || tag == 0x0e || tag > 0x12
}

/// Whether the calendar has a date, in milliseconds since 1970.
pub open spec fn is_in_calendar(date: int) -> bool {
    &&& -8334632851200000 <= date <= 8210298412799999
    &&& date >= 0 || date % 1000 == 0
}

/// How far a text reaches that has its length before it and a zero byte after it.
pub open spec fn text(bytes: Seq<u8>, at: int) -> Scan<int> {
    let length = number_at(bytes, at);
    if at + 4 > bytes.len() {
        Scan::Stops
    } else if length == 0 || bytes[at + 3] >= 128 {
        Scan::Panics
    } else if at + 4 + length > bytes.len() || !valid_utf8(
        bytes.subrange(at + 4, at + 4 + length - 1),
    ) {
        Scan::Stops
    } else {
        Scan::Goes(at + 4 + length)
    }
}

/// How far a text reaches that ends at the first zero byte.
pub open spec fn terminated(bytes: Seq<u8>, at: int) -> Scan<int> {
    match zero_from(bytes, at) {
        Some(end) => if valid_utf8(bytes.subrange(at, end)) {
            Scan::Goes(end + 1)
        } else {
            Scan::Stops
        },
        None => Scan::Stops,
    }
}

/// A document is four bytes, entries and a zero byte. An entry is a tag, a key that
/// ends at a zero byte, and a value. What follows a value is the next entry. The
/// keys of an array are its indices.
pub proof fn law_documents(bytes: Seq<u8>, at: int, index: nat, end: int, next: int)
    requires
        0 <= at <= bytes.len(),
    ensures
        at + 4 > bytes.len() ==> scan_document(bytes, at, false) == Scan::<int>::Stops
            && scan_document(bytes, at, true) == Scan::<int>::Stops,
        at + 4 <= bytes.len() ==> scan_document(bytes, at, false) == scan_entries(
            bytes,
            at + 4,
            None,
        ) && scan_document(bytes, at, true) == scan_entries(bytes, at + 4, Some(0)),
        at == bytes.len() ==> scan_entries(bytes, at, None) == Scan::<int>::Stops,
        at < bytes.len() && bytes[at] == 0 ==> scan_entries(bytes, at, None) == Scan::Goes(at + 1)
            && scan_entries(bytes, at, Some(index)) == Scan::Goes(at + 1),
        at < bytes.len() && bytes[at] != 0 ==> {
            &&& terminated(bytes, at + 1) is Stops ==> scan_entries(bytes, at, None) == Scan::<
                int,
            >::Stops
            &&& terminated(bytes, at + 1) == Scan::Goes(end) ==> {
                let value = scan_value(bytes, bytes[at], end);
                let due = bytes.subrange(at + 1, end - 1) == decimal(index);
                &&& value is Panics ==> scan_entries(bytes, at, None) == Scan::<int>::Panics
                &&& value is Stops ==> scan_entries(bytes, at, None) == Scan::<int>::Stops
                &&& value == Scan::Goes(next) && end <= next <= bytes.len() ==> scan_entries(
                    bytes,
                    at,
                    None,
                ) == scan_entries(bytes, next, None)
                &&& !due ==> scan_entries(bytes, at, Some(index)) == Scan::<int>::Stops
                &&& due && value is Panics ==> scan_entries(bytes, at, Some(index)) == Scan::<
                    int,
                >::Panics
                &&& due && value == Scan::Goes(next) && end <= next <= bytes.len()
                    ==> scan_entries(bytes, at, Some(index)) == scan_entries(
                    bytes,
                    next,
                    Some(index + 1),
                )
            }
        },
{
    lemma_zero_from(bytes, at + 1);
}

/// An index is written in digits, the highest first.
pub proof fn law_indices(number: nat, digit: nat)
    requires
        digit < 10,
    ensures
        decimal(digit) == seq![(48 + digit) as u8],
        number > 0 ==> decimal(10 * number + digit) == decimal(number).push((48 + digit) as u8),
{
    if number > 0 {
        assert((10 * number + digit) / 10 == number && (10 * number + digit) % 10 == digit);
    }
}

/// Bytes are taken exactly where the decoder does not panic on the document at
/// their beginning.
pub proof fn law_decodable(bytes: &[u8], result: bool)
    requires
        call_ensures(decodable, (bytes,), result),
    ensures
        result <==> !(scan_document(bytes@, 0, false) is Panics),
        bytes@.len() < 5 || bytes@[4] == 0 ==> result,
{
}

/// Whether a byte is the tag of values on which the decoder can panic.
pub open spec fn is_risky(byte: u8) -> bool {
    byte == 2 || byte == 5 || byte == 9 || byte == 13 || byte == 15
}

proof fn lemma_value_without_risk(bytes: Seq<u8>, tag: u8, at: int)
    requires
        0 <= at,
        !is_risky(tag),
        forall|i: int| 0 <= i < bytes.len() ==> !is_risky(#[trigger] bytes[i]),
    ensures
        !(scan_value(bytes, tag, at) is Panics),
    decreases bytes.len() - at, 2int,
{
    lemma_document_without_risk(bytes, at, false);
    lemma_document_without_risk(bytes, at, true);
}

proof fn lemma_document_without_risk(bytes: Seq<u8>, at: int, array: bool)
    requires
        0 <= at,
        forall|i: int| 0 <= i < bytes.len() ==> !is_risky(#[trigger] bytes[i]),
    ensures
        !(scan_document(bytes, at, array) is Panics),
    decreases bytes.len() - at, 1int,
{
    if at + 4 <= bytes.len() {
        lemma_entries_without_risk(bytes, at + 4, None);
        lemma_entries_without_risk(bytes, at + 4, Some(0));
    }
}

proof fn lemma_entries_without_risk(bytes: Seq<u8>, at: int, index: Option<nat>)
    requires
        0 <= at,
        forall|i: int| 0 <= i < bytes.len() ==> !is_risky(#[trigger] bytes[i]),
    ensures
        !(scan_entries(bytes, at, index) is Panics),
    decreases bytes.len() - at, 0int,
{
    if at < bytes.len() && bytes[at] != 0 {
        if let Scan::Goes(value) = scan_cstring(bytes, at + 1) {
            if at + 1 < value <= bytes.len() {
                lemma_value_without_risk(bytes, bytes[at], value);
                if let Scan::Goes(next) = scan_value(bytes, bytes[at], value) {
                    if value <= next <= bytes.len() {
                        lemma_entries_without_risk(
                            bytes,
                            next,
                            next_index(index),
                        );
                    }
                }
            }
        }
    }
}

/// Bytes among which no byte is a tag on which the decoder can panic are taken.
pub proof fn law_bytes_without_risk_are_taken(bytes: Seq<u8>)
    requires
        forall|i: int| 0 <= i < bytes.len() ==> !is_risky(#[trigger] bytes[i]),
    ensures
        decodes(bytes),
{
    lemma_document_without_risk(bytes, 0, false);
}

} // verus!
