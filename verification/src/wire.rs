//! Which bytes the decoder of documents takes.
//!
//! The decoder answers most bytes that are no document with an error. Three
//! things it does not check: the length of a string that leaves no room for the
//! zero byte at its end, a negative length of binary data, and a date that the
//! calendar does not have or that is a fraction of a second before 1970. It
//! panics on them. This module tells where it would get to that.

use vstd::prelude::*;
use vstd::slice::slice_subrange;
use vstd::utf8::valid_utf8;

use crate::text::from_utf8;

verus! {

/// What becomes of reading a part of a document: the position after it, or the
/// error that ends the reading, or a panic.
pub enum Scan<P> {
    Goes(P),
    Stops,
    Panics,
}

/// The milliseconds before and after 1970 between which the calendar lies.
pub const FIRST_DATE: i64 = -8334632851200000;

pub const LAST_DATE: i64 = 8210298412799999;

/// The four bytes at a position as a number, the low byte first.
pub open spec fn u32_at(bytes: Seq<u8>, at: int) -> int {
    bytes[at] + 0x100 * bytes[at + 1] + 0x1_0000 * bytes[at + 2] + 0x100_0000 * bytes[at + 3]
}

/// The four bytes at a position as a signed number.
pub open spec fn i32_at(bytes: Seq<u8>, at: int) -> int {
    if u32_at(bytes, at) < 0x8000_0000 {
        u32_at(bytes, at)
    } else {
        u32_at(bytes, at) - 0x1_0000_0000
    }
}

/// The eight bytes at a position as a signed number.
pub open spec fn i64_at(bytes: Seq<u8>, at: int) -> int {
    u32_at(bytes, at) + 0x1_0000_0000 * i32_at(bytes, at + 4)
}

/// The digits of a number.
pub open spec fn decimal(number: nat) -> Seq<u8>
    decreases number,
{
    if number < 10 {
        seq![(0x30 + number) as u8]
    } else {
        decimal(number / 10).push((0x30 + number % 10) as u8)
    }
}

/// The position of the first zero byte from a position on.
pub open spec fn zero_from(bytes: Seq<u8>, at: int) -> Option<int>
    decreases bytes.len() - at,
{
    if at >= bytes.len() {
        None
    } else if bytes[at] == 0 {
        Some(at)
    } else {
        zero_from(bytes, at + 1)
    }
}

/// Reading `length` bytes.
pub open spec fn scan_fixed(bytes: Seq<u8>, at: int, length: int) -> Scan<int> {
    if at + length <= bytes.len() {
        Scan::Goes(at + length)
    } else {
        Scan::Stops
    }
}

/// Reading a text that ends in a zero byte.
pub open spec fn scan_cstring(bytes: Seq<u8>, at: int) -> Scan<int> {
    match zero_from(bytes, at) {
        None => Scan::Stops,
        Some(end) => if valid_utf8(bytes.subrange(at, end)) {
            Scan::Goes(end + 1)
        } else {
            Scan::Stops
        },
    }
}

/// Reading a text with its length before it.
pub open spec fn scan_string(bytes: Seq<u8>, at: int) -> Scan<int> {
    if at + 4 > bytes.len() {
        Scan::Stops
    } else if i32_at(bytes, at) < 1 {
        Scan::Panics
    } else if at + 4 + i32_at(bytes, at) > bytes.len() {
        Scan::Stops
    } else if !valid_utf8(bytes.subrange(at + 4, at + 3 + i32_at(bytes, at))) {
        Scan::Stops
    } else {
        Scan::Goes(at + 4 + i32_at(bytes, at))
    }
}

/// Reading binary data, of which there may be less than its length says.
pub open spec fn scan_binary(bytes: Seq<u8>, at: int) -> Scan<int> {
    if at + 5 > bytes.len() {
        Scan::Stops
    } else if i32_at(bytes, at) < 0 {
        Scan::Panics
    } else if at + 5 + i32_at(bytes, at) > bytes.len() {
        Scan::Goes(bytes.len() as int)
    } else {
        Scan::Goes(at + 5 + i32_at(bytes, at))
    }
}

/// Whether the calendar has a date, in milliseconds since 1970. Before 1970 it
/// has whole seconds only.
pub open spec fn calendar_has(date: int) -> bool {
    FIRST_DATE <= date <= LAST_DATE && (date >= 0 || date % 1000 == 0)
}

/// Reading a date in milliseconds since 1970.
pub open spec fn scan_date(bytes: Seq<u8>, at: int) -> Scan<int> {
    if at + 8 > bytes.len() {
        Scan::Stops
    } else if calendar_has(i64_at(bytes, at)) {
        Scan::Goes(at + 8)
    } else {
        Scan::Panics
    }
}

/// Reading a document, or an array where `array` says so.
pub open spec fn scan_document(bytes: Seq<u8>, at: int, array: bool) -> Scan<int>
    decreases bytes.len() - at, 0int,
{
    if at + 4 > bytes.len() {
        Scan::Stops
    } else {
        scan_entries(
            bytes,
            at + 4,
            if array {
                Some(0nat)
            } else {
                None
            },
        )
    }
}

/// Reading the entries of a document up to the zero byte at its end. The keys of
/// an array are the numbers from `index` on.
pub open spec fn scan_entries(bytes: Seq<u8>, at: int, index: Option<nat>) -> Scan<int>
    decreases bytes.len() - at, 0int,
{
    if at >= bytes.len() {
        Scan::Stops
    } else if bytes[at] == 0 {
        Scan::Goes(at + 1)
    } else {
        match scan_cstring(bytes, at + 1) {
            Scan::Goes(value) => if at + 1 < value <= bytes.len() && key_fits(
                bytes.subrange(at + 1, value - 1),
                index,
            ) {
                match scan_value(bytes, bytes[at], value) {
                    Scan::Goes(next) => if value <= next <= bytes.len() {
                        scan_entries(bytes, next, next_index(index))
                    } else {
                        Scan::Stops
                    },
                    ended => ended,
                }
            } else {
                Scan::Stops
            },
            ended => ended,
        }
    }
}

/// Whether a key is the one that is due.
pub open spec fn key_fits(key: Seq<u8>, index: Option<nat>) -> bool {
    index matches Some(index) ==> key == decimal(index)
}

/// The index after another.
pub open spec fn next_index(index: Option<nat>) -> Option<nat> {
    match index {
        Some(index) => Some(index + 1),
        None => None,
    }
}

/// Reading a value of the type that `tag` stands for.
pub open spec fn scan_value(bytes: Seq<u8>, tag: u8, at: int) -> Scan<int>
    decreases bytes.len() - at, 1int,
{
    if tag == 0x01 || tag == 0x11 || tag == 0x12 {
        scan_fixed(bytes, at, 8)
    } else if tag == 0x02 || tag == 0x0d {
        scan_string(bytes, at)
    } else if tag == 0x03 {
        scan_document(bytes, at, false)
    } else if tag == 0x04 {
        scan_document(bytes, at, true)
    } else if tag == 0x05 {
        scan_binary(bytes, at)
    } else if tag == 0x07 {
        scan_fixed(bytes, at, 12)
    } else if tag == 0x08 {
        scan_fixed(bytes, at, 1)
    } else if tag == 0x09 {
        scan_date(bytes, at)
    } else if tag == 0x0a {
        Scan::Goes(at)
    } else if tag == 0x0b {
        match scan_cstring(bytes, at) {
            Scan::Goes(next) => scan_cstring(bytes, next),
            ended => ended,
        }
    } else if tag == 0x0f {
        match scan_string(bytes, at) {
            Scan::Goes(next) => if at < next <= bytes.len() {
                scan_document(bytes, next, false)
            } else {
                Scan::Stops
            },
            ended => ended,
        }
    } else if tag == 0x10 {
        scan_fixed(bytes, at, 4)
    } else {
        Scan::Stops
    }
}

/// Whether the decoder takes these bytes: it reads a document from them or fails
/// with an error.
pub open spec fn decodes(bytes: Seq<u8>) -> bool {
    scan_document(bytes, 0, false) !is Panics
}

impl View for Scan<usize> {
    type V = Scan<int>;

    open spec fn view(&self) -> Scan<int> {
        match *self {
            Scan::Goes(at) => Scan::Goes(at as int),
            Scan::Stops => Scan::Stops,
            Scan::Panics => Scan::Panics,
        }
    }
}

/// Whether a position that a scan goes on from lies in the bytes.
spec fn within(scan: Scan<usize>, bytes: Seq<u8>, at: int) -> bool {
    scan matches Scan::Goes(next) ==> at <= next <= bytes.len()
}

fn read_u32(bytes: &[u8], at: usize) -> (number: i64)
    requires
        at + 4 <= bytes.len(),
    ensures
        number == u32_at(bytes@, at as int),
        0 <= number < 0x1_0000_0000,
{
    bytes[at] as i64 + 0x100 * (bytes[at + 1] as i64) + 0x1_0000 * (bytes[at + 2] as i64)
        + 0x100_0000 * (bytes[at + 3] as i64)
}

fn read_i32(bytes: &[u8], at: usize) -> (number: i64)
    requires
        at + 4 <= bytes.len(),
    ensures
        number == i32_at(bytes@, at as int),
        -0x8000_0000 <= number < 0x8000_0000,
{
    let number = read_u32(bytes, at);
    if number < 0x8000_0000 {
        number
    } else {
        number - 0x1_0000_0000
    }
}

fn read_i64(bytes: &[u8], at: usize) -> (number: i128)
    requires
        at + 8 <= bytes.len(),
    ensures
        number == i64_at(bytes@, at as int),
{
    read_u32(bytes, at) as i128 + 0x1_0000_0000 * (read_i32(bytes, at + 4) as i128)
}

fn write_decimal(number: usize) -> (digits: Vec<u8>)
    ensures
        digits@ == decimal(number as nat),
    decreases number,
{
    let digit: u8 = 0x30 + (number % 10) as u8;
    if number < 10 {
        let mut digits: Vec<u8> = Vec::new();
        digits.push(digit);
        digits
    } else {
        let mut digits = write_decimal(number / 10);
        digits.push(digit);
        digits
    }
}

fn same_bytes(left: &[u8], right: &[u8]) -> (result: bool)
    ensures
        result == (left@ == right@),
{
    if left.len() != right.len() {
        return false;
    }
    let mut i: usize = 0;
    while i < left.len()
        invariant
            i <= left.len() == right.len(),
            forall|j: int| 0 <= j < i ==> left[j] == right[j],
        decreases left.len() - i,
    {
        if left[i] != right[i] {
            return false;
        }
        i = i + 1;
    }
    proof {
        assert(left@ =~= right@);
    }
    true
}

fn find_zero(bytes: &[u8], at: usize) -> (position: Option<usize>)
    requires
        at <= bytes.len(),
    ensures
        match position {
            Some(position) => {
                &&& zero_from(bytes@, at as int) == Some(position as int)
                &&& at <= position < bytes.len()
            },
            None => zero_from(bytes@, at as int) is None,
        },
{
    let mut i: usize = at;
    while i < bytes.len()
        invariant
            at <= i <= bytes.len(),
            zero_from(bytes@, at as int) == zero_from(bytes@, i as int),
        decreases bytes.len() - i,
    {
        if bytes[i] == 0 {
            return Some(i);
        }
        i = i + 1;
    }
    None
}

fn pass_fixed(bytes: &[u8], at: usize, length: usize) -> (scan: Scan<usize>)
    requires
        at <= bytes.len(),
    ensures
        scan@ == scan_fixed(bytes@, at as int, length as int),
        within(scan, bytes@, at as int),
{
    if length <= bytes.len() - at {
        Scan::Goes(at + length)
    } else {
        Scan::Stops
    }
}

fn pass_cstring(bytes: &[u8], at: usize) -> (scan: Scan<usize>)
    requires
        at <= bytes.len(),
    ensures
        scan@ == scan_cstring(bytes@, at as int),
        within(scan, bytes@, at + 1),
{
    match find_zero(bytes, at) {
        None => Scan::Stops,
        Some(end) => match from_utf8(slice_subrange(bytes, at, end)) {
            Some(_) => Scan::Goes(end + 1),
            None => Scan::Stops,
        },
    }
}

fn pass_string(bytes: &[u8], at: usize) -> (scan: Scan<usize>)
    requires
        at <= bytes.len(),
    ensures
        scan@ == scan_string(bytes@, at as int),
        within(scan, bytes@, at + 1),
{
    if bytes.len() - at < 4 {
        return Scan::Stops;
    }
    let length = read_i32(bytes, at);
    if length < 1 {
        return Scan::Panics;
    }
    let length: usize = length as usize;
    if bytes.len() - at - 4 < length {
        return Scan::Stops;
    }
    match from_utf8(slice_subrange(bytes, at + 4, at + 3 + length)) {
        Some(_) => Scan::Goes(at + 4 + length),
        None => Scan::Stops,
    }
}

fn pass_binary(bytes: &[u8], at: usize) -> (scan: Scan<usize>)
    requires
        at <= bytes.len(),
    ensures
        scan@ == scan_binary(bytes@, at as int),
        within(scan, bytes@, at as int),
{
    if bytes.len() - at < 5 {
        return Scan::Stops;
    }
    let length = read_i32(bytes, at);
    if length < 0 {
        return Scan::Panics;
    }
    let length: usize = length as usize;
    if bytes.len() - at - 5 < length {
        Scan::Goes(bytes.len())
    } else {
        Scan::Goes(at + 5 + length)
    }
}

fn is_date(date: i128) -> (result: bool)
    ensures
        result == calendar_has(date as int),
{
    if date < FIRST_DATE as i128 || date > LAST_DATE as i128 {
        return false;
    }
    if date >= 0 {
        return true;
    }
    let before: u64 = (-date) as u64;
    before % 1000 == 0
}

fn pass_date(bytes: &[u8], at: usize) -> (scan: Scan<usize>)
    requires
        at <= bytes.len(),
    ensures
        scan@ == scan_date(bytes@, at as int),
        within(scan, bytes@, at as int),
{
    if bytes.len() - at < 8 {
        return Scan::Stops;
    }
    if is_date(read_i64(bytes, at)) {
        Scan::Goes(at + 8)
    } else {
        Scan::Panics
    }
}

fn pass_document(bytes: &[u8], at: usize, array: bool) -> (scan: Scan<usize>)
    requires
        at <= bytes.len(),
    ensures
        scan@ == scan_document(bytes@, at as int, array),
        within(scan, bytes@, at as int),
    decreases bytes.len() - at, 0int,
{
    if bytes.len() - at < 4 {
        return Scan::Stops;
    }
    let mut index: usize = 0;
    let mut i: usize = at + 4;
    while i < bytes.len() && bytes[i] != 0
        invariant
            at + 4 <= i <= bytes.len(),
            index <= i,
            scan_document(bytes@, at as int, array) == scan_entries(
                bytes@,
                i as int,
                if array {
                    Some(index as nat)
                } else {
                    None
                },
            ),
        decreases bytes.len() - i,
    {
        let value = match pass_cstring(bytes, i + 1) {
            Scan::Goes(value) => value,
            ended => {
                return ended;
            },
        };
        if array && !same_bytes(
            slice_subrange(bytes, i + 1, value - 1),
            write_decimal(index).as_slice(),
        ) {
            return Scan::Stops;
        }
        match pass_value(bytes, bytes[i], value) {
            Scan::Goes(next) => {
                i = next;
            },
            ended => {
                return ended;
            },
        }
        index = index + 1;
    }
    if i < bytes.len() {
        Scan::Goes(i + 1)
    } else {
        Scan::Stops
    }
}

fn pass_value(bytes: &[u8], tag: u8, at: usize) -> (scan: Scan<usize>)
    requires
        at <= bytes.len(),
    ensures
        scan@ == scan_value(bytes@, tag, at as int),
        within(scan, bytes@, at as int),
    decreases bytes.len() - at, 1int,
{
    if tag == 0x01 || tag == 0x11 || tag == 0x12 {
        pass_fixed(bytes, at, 8)
    } else if tag == 0x02 || tag == 0x0d {
        pass_string(bytes, at)
    } else if tag == 0x03 {
        pass_document(bytes, at, false)
    } else if tag == 0x04 {
        pass_document(bytes, at, true)
    } else if tag == 0x05 {
        pass_binary(bytes, at)
    } else if tag == 0x07 {
        pass_fixed(bytes, at, 12)
    } else if tag == 0x08 {
        pass_fixed(bytes, at, 1)
    } else if tag == 0x09 {
        pass_date(bytes, at)
    } else if tag == 0x0a {
        Scan::Goes(at)
    } else if tag == 0x0b {
        match pass_cstring(bytes, at) {
            Scan::Goes(next) => pass_cstring(bytes, next),
            ended => ended,
        }
    } else if tag == 0x0f {
        match pass_string(bytes, at) {
            Scan::Goes(next) => pass_document(bytes, next, false),
            ended => ended,
        }
    } else if tag == 0x10 {
        pass_fixed(bytes, at, 4)
    } else {
        Scan::Stops
    }
}

/// Tells whether the decoder takes these bytes.
pub fn decodable(bytes: &[u8]) -> (result: bool)
    ensures
        result == decodes(bytes@),
{
    match pass_document(bytes, 0, false) {
        Scan::Panics => false,
        _ => true,
    }
}

} // verus!
