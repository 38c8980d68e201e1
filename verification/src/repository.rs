//! The repository of one record type: what each operation hands to the
//! store, and what it makes of the store's reply.

use vstd::prelude::*;
use std::marker::PhantomData;
use crate::concern::{durable, force_journal};
use crate::cursor::TypeCursor;
use crate::document::{
    bson_document, clone_object_id, document_value, filter_by_id, id_filter, into_document,
    into_value, new_object_id,
};
use crate::driver::default_replace_options;
use crate::error::RepositoryError;
use crate::model::Model;

verus! {

/// What an upsert hands to the store's atomic find-and-replace.
pub struct ReplaceRequest {
    /// Selects the document to replace.
    pub filter: bson::Document,
    /// The document that takes its place.
    pub replacement: bson::Document,
    pub options: mongodb::options::FindOneAndReplaceOptions,
}

/// The document of a record: what the codec makes of it, where that is a
/// document.
pub open spec fn record_document<T: Model>(item: &T) -> Result<bson::Document, RepositoryError> {
    match item.encoded() {
        Err(e) => Err(RepositoryError::Serialization(e)),
        Ok(value) => match bson_document(value) {
            Some(document) => Ok(document),
            None => Err(RepositoryError::NotADocument),
        },
    }
}

/// The record of a document: what the codec makes of the document as a value.
pub open spec fn document_record<T: Model>(document: bson::Document) -> Result<T, RepositoryError> {
    match T::decoded(document_value(document)) {
        Ok(item) => Ok(item),
        Err(e) => Err(RepositoryError::Decode(e)),
    }
}

/// The options of an upsert: insert where nothing matches, hand back the
/// document as it is after the write, wait for the journal, and leave the
/// rest to the store.
pub open spec fn upsert_options(
    concern: Option<mongodb::options::WriteConcern>,
    options: mongodb::options::FindOneAndReplaceOptions,
) -> bool {
    &&& options.upsert == Some(true)
    &&& options.return_document == Some(mongodb::options::ReturnDocument::After)
    &&& options.write_concern matches Some(forced) && durable(concern, forced)
    &&& options.bypass_document_validation is None
    &&& options.max_time is None
    &&& options.projection is None
    &&& options.sort is None
    &&& options.collation is None
    &&& options.hint is None
}

/// Where the identity of an upserted record comes from.
pub enum IdentitySource {
    /// The record carries an identifier: the write replaces the document
    /// stored under it.
    Own(bson::oid::ObjectId),
    /// The record carries none and the caller gave a filter: the filter is
    /// taken as it is.
    Chosen(bson::Document),
    /// Neither is there: the record is given a new identifier.
    Fresh,
}

/// The precedence among the three: the record's own identifier, then a new
/// identifier where no filter was given, then the caller's filter.
pub open spec fn identity_of(
    own: Option<bson::oid::ObjectId>,
    filter: Option<bson::Document>,
) -> IdentitySource {
    match (own, filter) {
        (Some(id), _) => IdentitySource::Own(id),
        (None, None) => IdentitySource::Fresh,
        (None, Some(chosen)) => IdentitySource::Chosen(chosen),
    }
}

pub fn identity_source(
    own: Option<bson::oid::ObjectId>,
    filter: Option<bson::Document>,
) -> (source: IdentitySource)
    ensures
        source == identity_of(own, filter),
{
    match (own, filter) {
        (Some(id), _) => IdentitySource::Own(id),
        (None, None) => IdentitySource::Fresh,
        (None, Some(chosen)) => IdentitySource::Chosen(chosen),
    }
}

/// The document of the record at a place of a batch.
pub open spec fn document_at<T: Model>(records: Seq<T>, i: int) -> Result<
    bson::Document,
    RepositoryError,
> {
    record_document(&records[i])
}

/// The documents of a batch: one per record and in the records' order, or
/// the failure of the first record that has no document.
pub open spec fn batch_documents<T: Model>(
    records: Seq<T>,
    outcome: Result<Vec<bson::Document>, RepositoryError>,
) -> bool {
    match outcome {
        Ok(documents) => {
            &&& documents@.len() == records.len()
            &&& forall|i: int|
                0 <= i < records.len() ==> #[trigger] document_at(records, i) == Ok::<
                    bson::Document,
                    RepositoryError,
                >(documents@[i])
        },
        Err(e) => exists|k: int| {
            &&& 0 <= k < records.len()
            &&& #[trigger] document_at(records, k) == Err::<bson::Document, RepositoryError>(e)
            &&& forall|j: int| 0 <= j < k ==> #[trigger] document_at(records, j) is Ok
        },
    }
}

/// A batch of records that all have documents is sent whole: whatever meets
/// `batch_documents` for it is a success with as many documents as records.
pub proof fn lemma_valid_batch_is_sent_whole<T: Model>(
    records: Seq<T>,
    outcome: Result<Vec<bson::Document>, RepositoryError>,
)
    requires
        batch_documents(records, outcome),
        forall|i: int| 0 <= i < records.len() ==> #[trigger] document_at(records, i) is Ok,
    ensures
        outcome matches Ok(documents) && documents@.len() == records.len(),
{
}

/// What a point operation returns for a reply of the store: the store's
/// failure, nothing where nothing matched, or the decoded match.
pub open spec fn reply_record<T: Model>(
    reply: Result<Option<bson::Document>, mongodb::error::Error>,
) -> Result<Option<T>, RepositoryError> {
    match reply {
        Err(e) => Err(RepositoryError::Store(e)),
        Ok(None) => Ok(None),
        Ok(Some(document)) => match document_record::<T>(document) {
            Ok(item) => Ok(Some(item)),
            Err(e) => Err(e),
        },
    }
}

pub trait RepositoryTrait<T: Model>: Sized {
    /// The write concern that this repository asks for.
    spec fn concern() -> Option<mongodb::options::WriteConcern>;

    fn new(database: mongodb::Database) -> Self;

    /// The model's write concern.
    fn write_concern() -> (concern: Option<mongodb::options::WriteConcern>)
        ensures
            concern == Self::concern(),
    ;

    fn get_document(model: &T) -> (document: Result<bson::Document, RepositoryError>)
        ensures
            document == record_document(model),
    {
        match model.to_bson() {
            Err(e) => Err(RepositoryError::Serialization(e)),
            Ok(value) => match into_document(value) {
                Some(document) => Ok(document),
                None => Err(RepositoryError::NotADocument),
            },
        }
    }

    fn get_instance_from_document(document: bson::Document) -> (item: Result<T, RepositoryError>)
        ensures
            item == document_record::<T>(document),
    {
        match T::from_bson(into_value(document)) {
            Ok(item) => Ok(item),
            Err(e) => Err(RepositoryError::Decode(e)),
        }
    }

    /// What an upsert of the record sends. The replacement is the record's
    /// document as it is on entry; the filter goes by `identity_of`, and
    /// only a record without identifier and without filter is changed: it
    /// then carries the new identifier that the filter names. The journal's
    /// acknowledgment is asked for whatever the repository's write concern
    /// says. A record that has no document fails before anything is
    /// generated or assigned.
    fn add_item_request(filter: Option<bson::Document>, item: &mut T) -> (request: Result<
        ReplaceRequest,
        RepositoryError,
    >)
        ensures
            match record_document(old(item)) {
                Err(e) => request == Err::<ReplaceRequest, RepositoryError>(e) && *final(item)
                    == *old(item),
                Ok(document) => {
                    &&& request matches Ok(sent)
                    &&& sent.replacement == document
                    &&& upsert_options(Self::concern(), sent.options)
                    &&& match identity_of(old(item).id(), filter) {
                        IdentitySource::Own(id) => sent.filter == id_filter(id) && *final(item)
                            == *old(item),
                        IdentitySource::Chosen(chosen) => sent.filter == chosen && *final(item)
                            == *old(item),
                        IdentitySource::Fresh => final(item).id() matches Some(id) && sent.filter
                            == id_filter(id),
                    }
                },
            },
    {
        let replacement = match Self::get_document(item) {
            Ok(document) => document,
            Err(e) => { return Err(e); },
        };
        let forced = force_journal(Self::write_concern());
        let filter = match identity_source(item.get_id(), filter) {
            IdentitySource::Own(id) => filter_by_id(id),
            IdentitySource::Chosen(chosen) => chosen,
            IdentitySource::Fresh => {
                let fresh = new_object_id();
                item.set_id(clone_object_id(&fresh));
                filter_by_id(fresh)
            },
        };
        let mut options = default_replace_options();
        options.upsert = Some(true);
        options.write_concern = Some(forced);
        options.return_document = Some(mongodb::options::ReturnDocument::After);
        Ok(ReplaceRequest { filter, replacement, options })
    }

    /// What a bulk insert sends: the documents of all records, or the
    /// failure of the first record that has none, in which case nothing is
    /// sent.
    fn add_many_request(collection: Vec<T>) -> (documents: Result<
        Vec<bson::Document>,
        RepositoryError,
    >)
        ensures
            batch_documents(collection@, documents),
    {
        let mut documents: Vec<bson::Document> = Vec::new();
        let mut i: usize = 0;
        while i < collection.len()
            invariant
                i <= collection.len(),
                documents@.len() == i,
                forall|j: int|
                    0 <= j < i ==> #[trigger] document_at(collection@, j) == Ok::<
                        bson::Document,
                        RepositoryError,
                    >(documents@[j]),
            decreases collection.len() - i,
        {
            match Self::get_document(&collection[i]) {
                Ok(document) => { documents.push(document); },
                Err(e) => {
                    assert(document_at(collection@, i as int) == Err::<
                        bson::Document,
                        RepositoryError,
                    >(e));
                    return Err(e);
                },
            }
            i = i + 1;
        }
        Ok(documents)
    }

    /// What a point operation (upsert, find-one, delete-one) returns for
    /// the store's reply.
    fn found_item(reply: Result<Option<bson::Document>, mongodb::error::Error>) -> (item: Result<
        Option<T>,
        RepositoryError,
    >)
        ensures
            item == reply_record::<T>(reply),
    {
        match reply {
            Err(e) => Err(RepositoryError::Store(e)),
            Ok(None) => Ok(None),
            Ok(Some(document)) => match Self::get_instance_from_document(document) {
                Ok(item) => Ok(Some(item)),
                Err(e) => Err(e),
            },
        }
    }

    /// What a bulk operation returns for the store's reply: the store's
    /// summary as it is, or its failure.
    fn summary<S>(reply: Result<S, mongodb::error::Error>) -> (summary: Result<S, RepositoryError>)
        ensures
            summary == match reply {
                Ok(s) => Ok::<S, RepositoryError>(s),
                Err(e) => Err::<S, RepositoryError>(RepositoryError::Store(e)),
            },
    {
        match reply {
            Ok(s) => Ok(s),
            Err(e) => Err(RepositoryError::Store(e)),
        }
    }

    /// What a streaming query returns for the store's reply: a live typed
    /// cursor over the store's cursor, or the store's failure.
    fn opened<C>(reply: Result<C, mongodb::error::Error>) -> (cursor: Result<
        TypeCursor<T, C>,
        RepositoryError,
    >)
        ensures
            match reply {
                Ok(raw) => cursor matches Ok(typed) && typed.raw() == raw && typed.live(),
                Err(e) => cursor == Err::<TypeCursor<T, C>, RepositoryError>(RepositoryError::Store(e)),
            },
    {
        match reply {
            Ok(raw) => Ok(TypeCursor::new(raw)),
            Err(e) => Err(RepositoryError::Store(e)),
        }
    }
}

pub struct GenericRepository<T: Model> {
    phantom: PhantomData<T>,
    pub database: mongodb::Database,
}

impl<T: Model> GenericRepository<T> {
    /// The database that the repository is bound to.
    pub closed spec fn handle(&self) -> mongodb::Database {
        self.database
    }
}

impl<T: Model> RepositoryTrait<T> for GenericRepository<T> {
    open spec fn concern() -> Option<mongodb::options::WriteConcern> {
        None
    }

    fn new(database: mongodb::Database) -> (repository: Self)
        ensures
            repository.handle() == database,
    {
        GenericRepository { phantom: PhantomData, database }
    }

    fn write_concern() -> (concern: Option<mongodb::options::WriteConcern>) {
        None
    }
}

} // verus!
