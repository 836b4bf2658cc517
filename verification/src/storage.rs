//! Storing documents in a collection and fetching them.

use vstd::prelude::*;
use vstd::pervasive::unreached;
use bson::{Document, EncoderError};

use crate::collection::Collection;
use crate::database::explained;
use crate::document::{
    contents, decode, encode, encoded_view, encoding, read, read_outcome, reading, Contents,
};
use crate::error::{result_view, Error, ErrorView, PartialSave};
use crate::last_error::{last_error_msg_plan, LastError, LastErrorMsg};
use crate::limits::{encodable, encodes};
use crate::native::{Answer, Call, Handle, NativeReply, ObjectId, Reply, Request};
use crate::operation::{ask, follows, step_plan, Operation, Plan, Step};

verus! {

/// The plan of storing a document in its binary form, or of failing where it has
/// none.
pub open spec fn save_plan(
    db: Handle,
    coll: Handle,
    encoded: Result<Seq<u8>, EncoderError>,
    replies: Seq<Answer>,
    at: int,
) -> Plan<Result<ObjectId, ErrorView>> {
    match encoded {
        Err(error) => Plan::Done(Err(ErrorView::BsonEncoding(error)), at),
        Ok(document) => ask(
            Request::SaveDocument { coll, document },
            replies,
            at,
            |saved: Answer|
                if saved->Saved_status != 0 {
                    Plan::Done(Ok(saved->Saved_id), at + 1)
                } else {
                    explained(db, "error saving BSON document"@, replies, at + 1)
                },
        ),
    }
}

/// Stores a document.
pub enum Saving {
    Save { db: Handle, coll: Handle, document: Ghost<Seq<u8>> },
    Failed(LastError),
}

impl<'db> Collection<'db> {
    /// Stores a document and gives its identifier.
    pub fn save(&self, doc: &Document) -> (step: Step<Saving, Result<ObjectId, Error>>)
        requires
            encodes(contents(*doc)),
        ensures
            follows(
                step,
                |replies: Seq<Answer>, at: int|
                    save_plan(self.db.handle, self.coll, Ok(encoding(contents(*doc).entries)), replies, at),
            ),
    {
        self.save_encoded(encode(doc))
    }

    /// Stores a document, unless it is one that the encoder does not take.
    pub fn try_save(&self, doc: &Document) -> (step: Option<
        Step<Saving, Result<ObjectId, Error>>,
    >)
        ensures
            step is Some <==> encodes(contents(*doc)),
            step matches Some(step) ==> follows(
                step,
                |replies: Seq<Answer>, at: int|
                    save_plan(self.db.handle, self.coll, Ok(encoding(contents(*doc).entries)), replies, at),
            ),
    {
        if encodable(doc) {
            Some(self.save(doc))
        } else {
            None
        }
    }

    /// Stores a document of which this came when it was encoded.
    pub fn save_encoded(&self, encoded: Result<Vec<u8>, EncoderError>) -> (step: Step<
        Saving,
        Result<ObjectId, Error>,
    >)
        ensures
            follows(
                step,
                |replies: Seq<Answer>, at: int|
                    save_plan(self.db.handle, self.coll, encoded_view(encoded), replies, at),
            ),
    {
        match encoded {
            Err(error) => Step::Done(Err(Error::BsonEncoding(error))),
            Ok(document) => {
                let ghost bytes = document@;
                Step::Ask(
                    Request::SaveDocument { coll: self.coll, document },
                    Saving::Save {
                        db: self.db.handle,
                        coll: self.coll,
                        document: Ghost(bytes),
                    },
                )
            },
        }
    }
}

impl Operation for Saving {
    type Output = Result<ObjectId, Error>;

    type Outcome = Result<ObjectId, ErrorView>;

    open spec fn outcome(output: Result<ObjectId, Error>) -> Result<ObjectId, ErrorView> {
        result_view(output)
    }

    open spec fn awaiting(&self) -> Call {
        match *self {
            Saving::Save { coll, document, .. } => Request::SaveDocument {
                coll,
                document: document@,
            },
            Saving::Failed(error) => error.awaiting(),
        }
    }

    open spec fn after(&self, answer: Answer, replies: Seq<Answer>, at: int) -> Plan<
        Result<ObjectId, ErrorView>,
    > {
        match *self {
            Saving::Save { db, .. } => if answer->Saved_status != 0 {
                Plan::Done(Ok(answer->Saved_id), at)
            } else {
                explained(db, "error saving BSON document"@, replies, at)
            },
            Saving::Failed(error) => error.after(answer, replies, at).and_next(
                |error: ErrorView, at: int| Plan::Done(Err(error), at),
            ),
        }
    }

    fn resume(self, reply: NativeReply) -> (step: Step<Self, Result<ObjectId, Error>>) {
        match (self, reply) {
            (Saving::Save { db, .. }, Reply::Saved { status, id }) => if status != 0 {
                Step::Done(Ok(id))
            } else {
                Step::Ask(
                    Request::ErrorCode { db },
                    Saving::Failed(
                        LastError {
                            message: LastErrorMsg::Code { db },
                            context: "error saving BSON document",
                        },
                    ),
                )
            },
            (Saving::Failed(error), reply) => match error.resume(reply) {
                Step::Ask(request, error) => Step::Ask(request, Saving::Failed(error)),
                Step::Done(error) => Step::Done(Err(error)),
            },
            _ => unreached(),
        }
    }
}

/// What came of fetching a document means.
pub open spec fn loaded_view(loaded: Result<Option<Document>, Error>) -> Result<
    Option<Contents>,
    ErrorView,
> {
    match loaded {
        Ok(Some(document)) => Ok(Some(contents(document))),
        Ok(None) => Ok(None),
        Err(error) => Err(error@),
    }
}

/// What is given where a document was found and read.
pub open spec fn found(read: Result<Contents, ErrorView>) -> Result<Option<Contents>, ErrorView> {
    match read {
        Ok(read) => Ok(Some(read)),
        Err(error) => Err(error),
    }
}

/// The plan of fetching a document. Where the engine gives none, its last error
/// tells apart that there is none from that it could not be fetched; in the
/// second case it is asked for once more.
pub open spec fn load_plan(
    db: Handle,
    coll: Handle,
    id: ObjectId,
    replies: Seq<Answer>,
    at: int,
) -> Plan<Result<Option<Contents>, ErrorView>> {
    ask(
        Request::LoadDocument { coll, id },
        replies,
        at,
        |loaded: Answer|
            match loaded.bytes() {
                None => last_error_msg_plan(db, replies, at + 1).and_next(
                    |message: Option<Seq<char>>, at: int| not_loaded(db, message, replies, at),
                ),
                Some(bytes) => Plan::Done(found(read_outcome(reading(bytes))), at + 1),
            },
    )
}

/// The plan once the engine has said why it gave no document.
pub open spec fn not_loaded(
    db: Handle,
    message: Option<Seq<char>>,
    replies: Seq<Answer>,
    at: int,
) -> Plan<Result<Option<Contents>, ErrorView>> {
    match message {
        None => Plan::Done(Ok(None), at),
        Some(_) => explained(db, "error loading BSON document"@, replies, at),
    }
}

/// Fetches a document.
pub enum Loading {
    Load { db: Handle, coll: Handle, id: ObjectId },
    Absent { db: Handle, message: LastErrorMsg },
    Failed(LastError),
}

impl<'db> Collection<'db> {
    /// Fetches the document with that identifier, if there is one.
    pub fn load(&self, id: ObjectId) -> (step: Step<Loading, Result<Option<Document>, Error>>)
        ensures
            follows(
                step,
                |replies: Seq<Answer>, at: int|
                    load_plan(self.db.handle, self.coll, id, replies, at),
            ),
    {
        Step::Ask(
            Request::LoadDocument { coll: self.coll, id },
            Loading::Load { db: self.db.handle, coll: self.coll, id },
        )
    }
}

impl Operation for Loading {
    type Output = Result<Option<Document>, Error>;

    type Outcome = Result<Option<Contents>, ErrorView>;

    open spec fn outcome(output: Result<Option<Document>, Error>) -> Result<
        Option<Contents>,
        ErrorView,
    > {
        loaded_view(output)
    }

    open spec fn awaiting(&self) -> Call {
        match *self {
            Loading::Load { coll, id, .. } => Request::LoadDocument { coll, id },
            Loading::Absent { message, .. } => message.awaiting(),
            Loading::Failed(error) => error.awaiting(),
        }
    }

    open spec fn after(&self, answer: Answer, replies: Seq<Answer>, at: int) -> Plan<
        Result<Option<Contents>, ErrorView>,
    > {
        match *self {
            Loading::Load { db, .. } => match answer.bytes() {
                None => last_error_msg_plan(db, replies, at).and_next(
                    |message: Option<Seq<char>>, at: int| not_loaded(db, message, replies, at),
                ),
                Some(bytes) => Plan::Done(found(read_outcome(reading(bytes))), at),
            },
            Loading::Absent { db, message } => message.after(answer, replies, at).and_next(
                |message: Option<Seq<char>>, at: int| not_loaded(db, message, replies, at),
            ),
            Loading::Failed(error) => error.after(answer, replies, at).and_next(
                |error: ErrorView, at: int| Plan::Done(Err(error), at),
            ),
        }
    }

    fn resume(self, reply: NativeReply) -> (step: Step<Self, Result<Option<Document>, Error>>) {
        match (self, reply) {
            (Loading::Load { db, .. }, Reply::Bytes(None)) => Step::Ask(
                Request::ErrorCode { db },
                Loading::Absent { db, message: LastErrorMsg::Code { db } },
            ),
            (Loading::Load { .. }, Reply::Bytes(Some(bytes))) => match read(
                decode(bytes.as_slice()),
            ) {
                Ok(document) => Step::Done(Ok(Some(document))),
                Err(error) => Step::Done(Err(error)),
            },
            (Loading::Absent { db, message }, reply) => match message.resume(reply) {
                Step::Ask(request, message) => Step::Ask(request, Loading::Absent { db, message }),
                Step::Done(None) => Step::Done(Ok(None)),
                Step::Done(Some(_)) => Step::Ask(
                    Request::ErrorCode { db },
                    Loading::Failed(
                        LastError {
                            message: LastErrorMsg::Code { db },
                            context: "error loading BSON document",
                        },
                    ),
                ),
            },
            (Loading::Failed(error), reply) => match error.resume(reply) {
                Step::Ask(request, error) => Step::Ask(request, Loading::Failed(error)),
                Step::Done(error) => Step::Done(Err(error)),
            },
            _ => unreached(),
        }
    }
}

/// What came of storing several documents means.
pub open spec fn ids_view(output: Result<Vec<ObjectId>, Error>) -> Result<
    Seq<ObjectId>,
    ErrorView,
> {
    match output {
        Ok(ids) => Ok(ids@),
        Err(error) => Err(error@),
    }
}

/// Storing a document takes none of the answers before it.
pub proof fn lemma_save_moves_on(
    db: Handle,
    coll: Handle,
    encoded: Result<Seq<u8>, EncoderError>,
    replies: Seq<Answer>,
    at: int,
)
    ensures
        save_plan(db, coll, encoded, replies, at) matches Plan::Done(_, end) ==> at <= end,
{
}

/// The plan of storing the caller's documents one after the other, where those
/// before have got `ids`. The first one that is refused ends it.
pub open spec fn save_all_plan(
    db: Handle,
    coll: Handle,
    ids: Seq<ObjectId>,
    replies: Seq<Answer>,
    at: int,
) -> Plan<Result<Seq<ObjectId>, ErrorView>>
    decreases replies.len() - at,
{
    if at < replies.len() {
        match replies[at].document() {
            None => Plan::Done(Ok(ids), at + 1),
            Some(document) => {
                proof {
                    lemma_save_moves_on(db, coll, Ok(encoding(document.entries)), replies, at + 1);
                }
                match save_plan(db, coll, Ok(encoding(document.entries)), replies, at + 1) {
                    Plan::Ask(call) => Plan::Ask(call),
                    Plan::Done(Ok(id), end) => save_all_plan(db, coll, ids.push(id), replies, end),
                    Plan::Done(Err(error), end) => partly_saved(error, ids, end),
                }
            },
        }
    } else {
        Plan::Ask(Request::NextDocument)
    }
}

/// The plan once a document was refused.
pub open spec fn partly_saved(error: ErrorView, ids: Seq<ObjectId>, at: int) -> Plan<
    Result<Seq<ObjectId>, ErrorView>,
> {
    Plan::Done(Err(ErrorView::PartialSave { cause: Box::new(error), successful_ids: ids }), at)
}

/// The plan once it is known what became of a document.
pub open spec fn saved_one(
    db: Handle,
    coll: Handle,
    ids: Seq<ObjectId>,
    saved: Result<ObjectId, ErrorView>,
    replies: Seq<Answer>,
    at: int,
) -> Plan<Result<Seq<ObjectId>, ErrorView>> {
    match saved {
        Ok(id) => save_all_plan(db, coll, ids.push(id), replies, at),
        Err(error) => partly_saved(error, ids, at),
    }
}

/// Stores several documents.
pub enum SavingAll<'coll, 'db> {
    Next { coll: &'coll Collection<'db>, ids: Vec<ObjectId> },
    Save { coll: &'coll Collection<'db>, ids: Vec<ObjectId>, saving: Saving },
}

impl<'db> Collection<'db> {
    /// Stores the caller's documents one after the other and gives their
    /// identifiers.
    pub fn save_all<'coll>(&'coll self) -> (step: Step<
        SavingAll<'coll, 'db>,
        Result<Vec<ObjectId>, Error>,
    >)
        ensures
            follows(
                step,
                |replies: Seq<Answer>, at: int|
                    save_all_plan(self.db.handle, self.coll, Seq::empty(), replies, at),
            ),
    {
        Step::Ask(Request::NextDocument, SavingAll::Next { coll: self, ids: Vec::new() })
    }
}

/// The error of storing several documents of which one was refused.
fn partial_save(error: Error, ids: Vec<ObjectId>) -> (result: Error)
    ensures
        result@ == (ErrorView::PartialSave { cause: Box::new(error@), successful_ids: ids@ }),
{
    Error::PartialSave(PartialSave { cause: Box::new(error), successful_ids: ids })
}

impl<'coll, 'db> Operation for SavingAll<'coll, 'db> {
    type Output = Result<Vec<ObjectId>, Error>;

    type Outcome = Result<Seq<ObjectId>, ErrorView>;

    open spec fn outcome(output: Result<Vec<ObjectId>, Error>) -> Result<
        Seq<ObjectId>,
        ErrorView,
    > {
        ids_view(output)
    }

    open spec fn awaiting(&self) -> Call {
        match *self {
            SavingAll::Next { .. } => Request::NextDocument,
            SavingAll::Save { saving, .. } => saving.awaiting(),
        }
    }

    open spec fn after(&self, answer: Answer, replies: Seq<Answer>, at: int) -> Plan<
        Result<Seq<ObjectId>, ErrorView>,
    > {
        match *self {
            SavingAll::Next { coll, ids } => match answer.document() {
                None => Plan::Done(Ok(ids@), at),
                Some(document) => save_plan(
                    coll.db.handle,
                    coll.coll,
                    Ok(encoding(document.entries)),
                    replies,
                    at,
                ).and_next(
                    |saved: Result<ObjectId, ErrorView>, at: int|
                        saved_one(coll.db.handle, coll.coll, ids@, saved, replies, at),
                ),
            },
            SavingAll::Save { coll, ids, saving } => saving.after(answer, replies, at).and_next(
                |saved: Result<ObjectId, ErrorView>, at: int|
                    saved_one(coll.db.handle, coll.coll, ids@, saved, replies, at),
            ),
        }
    }

    fn resume(self, reply: NativeReply) -> (step: Step<Self, Result<Vec<ObjectId>, Error>>) {
        let (coll, ids, saved) = match (self, reply) {
            (SavingAll::Next { ids, .. }, Reply::Next(None)) => {
                return Step::Done(Ok(ids));
            },
            (SavingAll::Next { coll, ids }, Reply::Next(Some(document))) => {
                let saved = coll.save(&document);
                proof {
                    assert forall|replies: Seq<Answer>, at: int| #[trigger]
                        save_plan(
                            coll.db.handle,
                            coll.coll,
                            Ok(encoding(contents(document).entries)),
                            replies,
                            at,
                        ) == step_plan(saved, replies, at) by {}
                }
                (coll, ids, saved)
            },
            (SavingAll::Save { coll, ids, saving }, reply) => (coll, ids, saving.resume(reply)),
            _ => unreached(),
        };
        match saved {
            Step::Ask(request, saving) => Step::Ask(request, SavingAll::Save { coll, ids, saving }),
            Step::Done(Ok(id)) => {
                let mut ids = ids;
                ids.push(id);
                Step::Ask(Request::NextDocument, SavingAll::Next { coll, ids })
            },
            Step::Done(Err(error)) => Step::Done(Err(partial_save(error, ids))),
        }
    }
}

} // verus!
