//! How a database is opened: a set of flags.

use vstd::prelude::*;

verus! {

/// Open for reading.
pub const JBOREADER: u32 = 1;

/// Open for writing.
pub const JBOWRITER: u32 = 2;

/// Create the files where there are none.
pub const JBOCREAT: u32 = 4;

/// Empty the files.
pub const JBOTRUNC: u32 = 8;

/// Open without locking.
pub const JBONOLCK: u32 = 16;

/// Lock without waiting.
pub const JBOLCKNB: u32 = 32;

/// Write every transaction through to the device.
pub const JBOTSYNC: u32 = 64;

/// All flags.
pub const ALL_FLAGS: u32 = 127;

/// A set of the flags above, each of which is one bit.
#[derive(Clone, Copy, Debug, PartialEq, Eq)]
pub struct OpenMode {
    bits: u32,
}

impl View for OpenMode {
    type V = u32;

    /// The bits of the flags in the set.
    closed spec fn view(&self) -> u32 {
        self.bits
    }
}

impl OpenMode {
    /// No other bit is ever set.
    #[verifier::type_invariant]
    spec fn flags_only(self) -> bool {
        self.bits & !ALL_FLAGS == 0
    }

    /// The set without a flag.
    pub fn empty() -> (mode: OpenMode)
        ensures
            mode@ == 0,
    {
        proof {
            assert(0u32 & !127u32 == 0) by (bit_vector);
        }
        OpenMode { bits: 0 }
    }

    /// The set of all flags.
    pub fn all() -> (mode: OpenMode)
        ensures
            mode@ == ALL_FLAGS,
    {
        proof {
            assert(127u32 & !127u32 == 0) by (bit_vector);
        }
        OpenMode { bits: ALL_FLAGS }
    }

    /// The bits of the set.
    pub fn bits(&self) -> (bits: u32)
        ensures
            bits == self@,
            bits & !ALL_FLAGS == 0,
            bits <= ALL_FLAGS,
    {
        proof {
            use_type_invariant(self);
            let bits = self.bits;
            assert(bits <= 127) by (bit_vector)
                requires
                    bits & !127u32 == 0,
            ;
        }
        self.bits
    }

    /// The set with these bits, unless one of them is no flag.
    pub fn from_bits(bits: u32) -> (mode: Option<OpenMode>)
        ensures
            mode is Some <==> bits & !ALL_FLAGS == 0,
            mode matches Some(mode) ==> mode@ == bits,
    {
        if bits & !ALL_FLAGS == 0 {
            Some(OpenMode { bits })
        } else {
            None
        }
    }

    /// The set of those of these bits that are flags.
    pub fn from_bits_truncate(bits: u32) -> (mode: OpenMode)
        ensures
            mode@ == bits & ALL_FLAGS,
    {
        proof {
            assert((bits & 127u32) & !127u32 == 0) by (bit_vector);
        }
        OpenMode { bits: bits & ALL_FLAGS }
    }

    /// Whether the set has no flag.
    pub fn is_empty(&self) -> (result: bool)
        ensures
            result == (self@ == 0),
    {
        self.bits == 0
    }

    /// Whether the set has all flags.
    pub fn is_all(&self) -> (result: bool)
        ensures
            result == (self@ == ALL_FLAGS),
    {
        self.bits == ALL_FLAGS
    }

    /// Whether the two sets have a flag in common.
    pub fn intersects(&self, other: OpenMode) -> (result: bool)
        ensures
            result == (self@ & other@ != 0),
    {
        self.bits & other.bits != 0
    }

    /// Whether the set has all flags of the other.
    pub fn contains(&self, other: OpenMode) -> (result: bool)
        ensures
            result == (self@ & other@ == other@),
    {
        self.bits & other.bits == other.bits
    }

    /// Puts the flags of the other set in.
    pub fn insert(&mut self, other: OpenMode)
        ensures
            final(self)@ == old(self)@ | other@,
    {
        proof {
            use_type_invariant(&*self);
            use_type_invariant(&other);
            let (a, b) = (self.bits, other.bits);
            assert((a | b) & !127u32 == 0) by (bit_vector)
                requires
                    a & !127u32 == 0,
                    b & !127u32 == 0,
            ;
        }
        self.bits = self.bits | other.bits;
    }

    /// Takes the flags of the other set out.
    pub fn remove(&mut self, other: OpenMode)
        ensures
            final(self)@ == old(self)@ & !other@,
    {
        proof {
            use_type_invariant(&*self);
            let (a, b) = (self.bits, other.bits);
            assert((a & !b) & !127u32 == 0) by (bit_vector)
                requires
                    a & !127u32 == 0,
            ;
        }
        self.bits = self.bits & !other.bits;
    }

    /// Puts in the flags of the other set that are out, and takes out those that
    /// are in.
    pub fn toggle(&mut self, other: OpenMode)
        ensures
            final(self)@ == old(self)@ ^ other@,
    {
        proof {
            use_type_invariant(&*self);
            use_type_invariant(&other);
            let (a, b) = (self.bits, other.bits);
            assert((a ^ b) & !127u32 == 0) by (bit_vector)
                requires
                    a & !127u32 == 0,
                    b & !127u32 == 0,
            ;
        }
        self.bits = self.bits ^ other.bits;
    }
}

impl core::ops::BitOr for OpenMode {
    type Output = OpenMode;

    /// The flags of both sets.
    fn bitor(self, other: OpenMode) -> (mode: OpenMode)
        ensures
            mode@ == self@ | other@,
    {
        let mut mode = self;
        mode.insert(other);
        mode
    }
}

impl vstd::std_specs::ops::BitOrSpecImpl for OpenMode {
    open spec fn obeys_bitor_spec() -> bool {
        true
    }

    open spec fn bitor_req(self, other: OpenMode) -> bool {
        true
    }

    closed spec fn bitor_spec(self, other: OpenMode) -> OpenMode {
        OpenMode { bits: self.bits | other.bits }
    }
}

impl core::ops::BitAnd for OpenMode {
    type Output = OpenMode;

    /// The flags that are in both sets.
    fn bitand(self, other: OpenMode) -> (mode: OpenMode)
        ensures
            mode@ == self@ & other@,
    {
        proof {
            use_type_invariant(&self);
            let (a, b) = (self.bits, other.bits);
            assert((a & b) & !127u32 == 0) by (bit_vector)
                requires
                    a & !127u32 == 0,
            ;
        }
        OpenMode { bits: self.bits & other.bits }
    }
}

impl vstd::std_specs::ops::BitAndSpecImpl for OpenMode {
    open spec fn obeys_bitand_spec() -> bool {
        true
    }

    open spec fn bitand_req(self, other: OpenMode) -> bool {
        true
    }

    closed spec fn bitand_spec(self, other: OpenMode) -> OpenMode {
        OpenMode { bits: self.bits & other.bits }
    }
}

impl core::ops::BitXor for OpenMode {
    type Output = OpenMode;

    /// The flags that are in one of the sets only.
    fn bitxor(self, other: OpenMode) -> (mode: OpenMode)
        ensures
            mode@ == self@ ^ other@,
    {
        let mut mode = self;
        mode.toggle(other);
        mode
    }
}

impl vstd::std_specs::ops::BitXorSpecImpl for OpenMode {
    open spec fn obeys_bitxor_spec() -> bool {
        true
    }

    open spec fn bitxor_req(self, other: OpenMode) -> bool {
        true
    }

    closed spec fn bitxor_spec(self, other: OpenMode) -> OpenMode {
        OpenMode { bits: self.bits ^ other.bits }
    }
}

impl core::ops::Sub for OpenMode {
    type Output = OpenMode;

    /// The flags that are not in the other set.
    fn sub(self, other: OpenMode) -> (mode: OpenMode)
        ensures
            mode@ == self@ & !other@,
    {
        let mut mode = self;
        mode.remove(other);
        mode
    }
}

impl vstd::std_specs::ops::SubSpecImpl for OpenMode {
    open spec fn obeys_sub_spec() -> bool {
        true
    }

    open spec fn sub_req(self, other: OpenMode) -> bool {
        true
    }

    closed spec fn sub_spec(self, other: OpenMode) -> OpenMode {
        OpenMode { bits: self.bits & !other.bits }
    }
}

impl Default for OpenMode {
    /// Open for reading and writing, and create what is not there.
    fn default() -> (mode: OpenMode)
        ensures
            mode@ == JBOREADER | JBOWRITER | JBOCREAT,
    {
        proof {
            assert((1u32 | 2u32 | 4u32) & !127u32 == 0) by (bit_vector);
        }
        OpenMode { bits: JBOREADER | JBOWRITER | JBOCREAT }
    }
}

} // verus!
