//! How a new collection is laid out.

use vstd::prelude::*;

use crate::native::EngineOptions;

verus! {

/// What is asked of a collection that is yet to be made.
#[derive(Clone, Copy, Debug, PartialEq, Eq)]
pub struct CollectionOptions {
    /// Whether it may grow past 2 GB.
    pub large: bool,
    /// Whether its records are compressed.
    pub compressed: bool,
    /// How many records are expected.
    pub records: i64,
    /// How many records are kept in memory.
    pub cached_records: i32,
}

impl CollectionOptions {
    /// These options with another `large`.
    pub fn large(self, large: bool) -> (options: CollectionOptions)
        ensures
            options == (CollectionOptions { large, ..self }),
    {
        CollectionOptions { large, ..self }
    }

    /// These options with another `compressed`.
    pub fn compressed(self, compressed: bool) -> (options: CollectionOptions)
        ensures
            options == (CollectionOptions { compressed, ..self }),
    {
        CollectionOptions { compressed, ..self }
    }

    /// These options with another `records`.
    pub fn records(self, records: i64) -> (options: CollectionOptions)
        ensures
            options == (CollectionOptions { records, ..self }),
    {
        CollectionOptions { records, ..self }
    }

    /// These options with another `cached_records`.
    pub fn cached_records(self, cached_records: i32) -> (options: CollectionOptions)
        ensures
            options == (CollectionOptions { cached_records, ..self }),
    {
        CollectionOptions { cached_records, ..self }
    }

    /// These options as the engine takes them: truth values as 0 and 1.
    pub open spec fn for_engine(self) -> EngineOptions {
        EngineOptions {
            large: truth(self.large),
            compressed: truth(self.compressed),
            records: self.records,
            cached_records: self.cached_records,
        }
    }

    /// Writes these options as the engine takes them.
    pub fn to_engine(self) -> (options: EngineOptions)
        ensures
            options == self.for_engine(),
    {
        EngineOptions {
            large: self.large as u8,
            compressed: self.compressed as u8,
            records: self.records,
            cached_records: self.cached_records,
        }
    }
}

impl Default for CollectionOptions {
    /// Neither large nor compressed, for 128000 records, none of them cached.
    fn default() -> (options: CollectionOptions)
        ensures
            options == (CollectionOptions {
                large: false,
                compressed: false,
                records: 128_000,
                cached_records: 0,
            }),
    {
        CollectionOptions { large: false, compressed: false, records: 128_000, cached_records: 0 }
    }
}

/// A truth value as the engine takes it.
pub open spec fn truth(value: bool) -> u8 {
    if value {
        1
    } else {
        0
    }
}

} // verus!
