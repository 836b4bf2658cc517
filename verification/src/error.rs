//! What can go wrong in an operation.

use vstd::prelude::*;
use bson::{DecoderError, EncoderError};

use crate::native::ObjectId;

verus! {

/// Why an operation failed.
#[derive(Debug)]
pub enum Error {
    /// A document could not be written as bytes.
    BsonEncoding(EncoderError),
    /// Bytes could not be read as a document.
    BsonDecoding(DecoderError),
    /// Some documents of several were stored before one was refused.
    PartialSave(PartialSave),
    /// Anything else, in words.
    Other(String),
}

/// How far the storing of several documents came.
#[derive(Debug)]
pub struct PartialSave {
    /// Why the first document that was refused was refused.
    pub cause: Box<Error>,
    /// The identifiers of the documents before it, in order.
    pub successful_ids: Vec<ObjectId>,
}

/// An [`Error`] as contracts speak of it.
pub enum ErrorView {
    BsonEncoding(EncoderError),
    BsonDecoding(DecoderError),
    PartialSave { cause: Box<ErrorView>, successful_ids: Seq<ObjectId> },
    Other(Seq<char>),
}

/// The view of an error.
pub open spec fn error_view(error: Error) -> ErrorView
    decreases error,
{
    match error {
        Error::BsonEncoding(error) => ErrorView::BsonEncoding(error),
        Error::BsonDecoding(error) => ErrorView::BsonDecoding(error),
        Error::PartialSave(save) => ErrorView::PartialSave {
            cause: Box::new(error_view(*save.cause)),
            successful_ids: save.successful_ids@,
        },
        Error::Other(message) => ErrorView::Other(message@),
    }
}

impl View for Error {
    type V = ErrorView;

    open spec fn view(&self) -> ErrorView {
        error_view(*self)
    }
}

/// What a result means where its error is an [`Error`].
pub open spec fn result_view<T>(result: Result<T, Error>) -> Result<T, ErrorView> {
    match result {
        Ok(value) => Ok(value),
        Err(error) => Err(error@),
    }
}

} // verus!
