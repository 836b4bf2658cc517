//! Texts and byte strings on their way to and from the engine.

use vstd::prelude::*;
use vstd::string::StringExecFns;
use vstd::utf8::{decode_utf8, valid_utf8};

verus! {

/// `std::str::from_utf8`: the text that the bytes are in UTF-8, or `None` where
/// they are not UTF-8.
#[verifier::external_body]
pub(crate) fn from_utf8(bytes: &[u8]) -> (text: Option<String>)
    ensures
        match text {
            Some(text) => valid_utf8(bytes@) && text@ == decode_utf8(bytes@),
            None => !valid_utf8(bytes@),
        },
{
    match std::str::from_utf8(bytes) {
        Ok(text) => Some(text.to_owned()),
        Err(_) => None,
    }
}

/// The bytes with a zero byte at their end, which is how the engine takes paths
/// and names. `None` where a zero byte stands among them.
pub fn c_string(bytes: Vec<u8>) -> (result: Option<Vec<u8>>)
    ensures
        match result {
            Some(terminated) => !bytes@.contains(0) && terminated@ == bytes@.push(0),
            None => bytes@.contains(0),
        },
{
    let mut i: usize = 0;
    while i < bytes.len()
        invariant
            i <= bytes.len(),
            forall|j: int| 0 <= j < i ==> bytes[j] != 0,
        decreases bytes.len() - i,
    {
        if bytes[i] == 0 {
            return None;
        }
        i = i + 1;
    }
    let mut terminated = bytes;
    terminated.push(0);
    Some(terminated)
}

/// What is said of a failed call: what was attempted, and what the engine says
/// of its last error.
pub open spec fn explanation(context: Seq<char>, reason: Option<Seq<char>>) -> Seq<char> {
    context + ": "@ + match reason {
        Some(reason) => reason,
        None => "unknown error"@,
    }
}

/// Writes an explanation.
pub fn explain(context: &str, reason: &Option<String>) -> (text: String)
    ensures
        text@ == explanation(
            context@,
            match *reason {
                Some(reason) => Some(reason@),
                None => None,
            },
        ),
{
    let text = context.to_owned().concat(": ");
    match reason {
        Some(reason) => text.concat(reason.as_str()),
        None => text.concat("unknown error"),
    }
}

} // verus!
