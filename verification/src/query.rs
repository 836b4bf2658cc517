//! What a query looks for.

use vstd::prelude::*;
use bson::Document;

use crate::document::{contents, is_empty, Contents};
use crate::limits::{encodable, encodes};

verus! {

/// The criteria of a query and the hints on how to execute it.
#[derive(Debug)]
pub struct Query {
    query: Document,
    hints: Document,
}

/// Whether these can be the criteria and the hints of a query: the encoder takes
/// them. Hints that are empty never come to it.
pub open spec fn executable(criteria: Contents, hints: Contents) -> bool {
    encodes(criteria) && (hints.empty || encodes(hints))
}

impl Query {
    #[verifier::type_invariant]
    spec fn well_formed(self) -> bool {
        executable(contents(self.query), contents(self.hints))
    }

    /// What a document has to look like.
    pub closed spec fn criteria(self) -> Contents {
        contents(self.query)
    }

    /// How the results are ordered, limited and projected.
    pub closed spec fn hints(self) -> Contents {
        contents(self.hints)
    }

    /// The query with these criteria and hints, if they can be those of one.
    pub fn new(query: Document, hints: Document) -> (result: Option<Query>)
        ensures
            result is Some <==> executable(contents(query), contents(hints)),
            result matches Some(made) ==> {
                &&& made.criteria() == contents(query)
                &&& made.hints() == contents(hints)
            },
    {
        if encodable(&query) && (is_empty(&hints) || encodable(&hints)) {
            Some(Query { query, hints })
        } else {
            None
        }
    }

    /// The hints and the criteria.
    pub fn build_ref(&self) -> (parts: (&Document, &Document))
        ensures
            contents(*parts.0) == self.hints(),
            contents(*parts.1) == self.criteria(),
            executable(self.criteria(), self.hints()),
    {
        proof {
            use_type_invariant(self);
        }
        (&self.hints, &self.query)
    }
}

} // verus!
