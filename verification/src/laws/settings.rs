//! What modes and options are made of.

use vstd::prelude::*;
use core::ops::{BitAnd, BitOr, BitXor, Sub};

use crate::native::EngineOptions;
use crate::open_mode::{
    OpenMode, ALL_FLAGS, JBOCREAT, JBOLCKNB, JBONOLCK, JBOREADER, JBOTRUNC, JBOTSYNC, JBOWRITER,
};
use crate::options::CollectionOptions;

verus! {

/// Each flag is a bit of its own, and there are no others.
pub proof fn law_flags()
    ensures
        JBOREADER == 1,
        JBOWRITER == 2,
        JBOCREAT == 4,
        JBOTRUNC == 8,
        JBONOLCK == 16,
        JBOLCKNB == 32,
        JBOTSYNC == 64,
        ALL_FLAGS == 127,
{
}

/// The bits of a mode are those that it was made of. A mode is made of any bits up
/// to 127 and of no others.
pub proof fn law_bits_are_kept(
    bits: u32,
    made: Option<OpenMode>,
    cut: OpenMode,
    made_bits: u32,
    cut_bits: u32,
)
    requires
        call_ensures(OpenMode::from_bits, (bits,), made),
        call_ensures(OpenMode::from_bits_truncate, (bits,), cut),
        made is Some ==> call_ensures(OpenMode::bits, (&made->0,), made_bits),
        call_ensures(OpenMode::bits, (&cut,), cut_bits),
    ensures
        made is Some <==> bits < 128,
        made is Some ==> made_bits == bits,
        cut_bits == bits % 128,
{
    assert(bits & !127u32 == 0 <==> bits < 128) by (bit_vector);
    assert(bits & 127u32 == bits % 128) by (bit_vector);
}

/// The modes that are given: none, all and the default one.
pub proof fn law_given_modes(
    empty: OpenMode,
    all: OpenMode,
    default: OpenMode,
    empty_bits: u32,
    all_bits: u32,
    default_bits: u32,
)
    requires
        call_ensures(OpenMode::empty, (), empty),
        call_ensures(OpenMode::all, (), all),
        call_ensures(<OpenMode as Default>::default, (), default),
        call_ensures(OpenMode::bits, (&empty,), empty_bits),
        call_ensures(OpenMode::bits, (&all,), all_bits),
        call_ensures(OpenMode::bits, (&default,), default_bits),
    ensures
        empty_bits == 0,
        all_bits == 127,
        default_bits == 7,
{
    assert(1u32 | 2u32 | 4u32 == 7) by (bit_vector);
}

/// Modes are sets of bits.
pub proof fn law_modes_are_sets(
    a: OpenMode,
    b: OpenMode,
    a_bits: u32,
    b_bits: u32,
    either: OpenMode,
    both: OpenMode,
    one: OpenMode,
    rest: OpenMode,
    either_bits: u32,
    both_bits: u32,
    one_bits: u32,
    rest_bits: u32,
)
    requires
        call_ensures(OpenMode::bits, (&a,), a_bits),
        call_ensures(OpenMode::bits, (&b,), b_bits),
        call_ensures(<OpenMode as BitOr>::bitor, (a, b), either),
        call_ensures(<OpenMode as BitAnd>::bitand, (a, b), both),
        call_ensures(<OpenMode as BitXor>::bitxor, (a, b), one),
        call_ensures(<OpenMode as Sub>::sub, (a, b), rest),
        call_ensures(OpenMode::bits, (&either,), either_bits),
        call_ensures(OpenMode::bits, (&both,), both_bits),
        call_ensures(OpenMode::bits, (&one,), one_bits),
        call_ensures(OpenMode::bits, (&rest,), rest_bits),
    ensures
        either_bits == a_bits | b_bits,
        both_bits == a_bits & b_bits,
        one_bits == a_bits ^ b_bits,
        rest_bits == a_bits & !b_bits,
{
}

/// Putting flags in, taking them out and turning them about does that to the bits.
pub proof fn law_modes_are_changed(
    inserted: &mut OpenMode,
    removed: &mut OpenMode,
    toggled: &mut OpenMode,
    other: OpenMode,
)
    requires
        call_ensures(OpenMode::insert, (inserted, other), ()),
        call_ensures(OpenMode::remove, (removed, other), ()),
        call_ensures(OpenMode::toggle, (toggled, other), ()),
    ensures
        final(inserted)@ == old(inserted)@ | other@,
        final(removed)@ == old(removed)@ & !other@,
        final(toggled)@ == old(toggled)@ ^ other@,
{
}

/// What is said of modes is said of their bits.
pub proof fn law_modes_are_compared(
    a: OpenMode,
    b: OpenMode,
    a_bits: u32,
    b_bits: u32,
    contains: bool,
    intersects: bool,
    is_empty: bool,
    is_all: bool,
)
    requires
        call_ensures(OpenMode::bits, (&a,), a_bits),
        call_ensures(OpenMode::bits, (&b,), b_bits),
        call_ensures(OpenMode::contains, (&a, b), contains),
        call_ensures(OpenMode::intersects, (&a, b), intersects),
        call_ensures(OpenMode::is_empty, (&a,), is_empty),
        call_ensures(OpenMode::is_all, (&a,), is_all),
    ensures
        contains <==> a_bits | b_bits == a_bits,
        intersects <==> a_bits & b_bits != 0,
        is_empty <==> a_bits == 0,
        is_all <==> a_bits == 127,
{
    assert(a_bits & b_bits == b_bits <==> a_bits | b_bits == a_bits) by (bit_vector);
}

/// Setting an option sets that one and leaves the others.
pub proof fn law_options_are_set(
    options: CollectionOptions,
    large: bool,
    compressed: bool,
    records: i64,
    cached_records: i32,
    a: CollectionOptions,
    b: CollectionOptions,
    c: CollectionOptions,
    d: CollectionOptions,
)
    requires
        call_ensures(CollectionOptions::large, (options, large), a),
        call_ensures(CollectionOptions::compressed, (options, compressed), b),
        call_ensures(CollectionOptions::records, (options, records), c),
        call_ensures(CollectionOptions::cached_records, (options, cached_records), d),
    ensures
        a.large == large && a.compressed == options.compressed && a.records == options.records
            && a.cached_records == options.cached_records,
        b.compressed == compressed && b.large == options.large && b.records == options.records
            && b.cached_records == options.cached_records,
        c.records == records && c.large == options.large && c.compressed == options.compressed
            && c.cached_records == options.cached_records,
        d.cached_records == cached_records && d.large == options.large && d.compressed
            == options.compressed && d.records == options.records,
{
}

/// The options that are given, and how the engine gets them: each as it is, a
/// truth value as 1 or 0.
pub proof fn law_options_for_the_engine(
    default: CollectionOptions,
    options: CollectionOptions,
    given: EngineOptions,
)
    requires
        call_ensures(<CollectionOptions as Default>::default, (), default),
        call_ensures(CollectionOptions::to_engine, (options,), given),
    ensures
        !default.large && !default.compressed,
        default.records == 128000 && default.cached_records == 0,
        given.large == 1 <==> options.large,
        given.large == 0 <==> !options.large,
        given.compressed == 1 <==> options.compressed,
        given.compressed == 0 <==> !options.compressed,
        given.records == options.records,
        given.cached_records == options.cached_records,
{
}

} // verus!
