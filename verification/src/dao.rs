//! The data access layer: which collection the records live in, what is sent
//! to it for each operation, and what each answer means.
//!
//! The layer itself sends nothing. `save` and `find_by_id` give what the
//! caller hands to the collection; `saved` and `found` take the collection's
//! answer and give the outcome of the operation.

use vstd::prelude::*;
use bson::Document;
use crate::document::{
    decoded,
    document_fields,
    filter_fields,
    from_document,
    id_filter,
    is_id_filter,
    record_fields,
    to_document,
    Fields,
};
use crate::error::StoreError;
use crate::record::{Foo, FooView};
use crate::store::found_fields;

verus! {

/// The failure that carries a message of the store.
pub open spec fn transport(message: String) -> StoreError {
    StoreError::Transport { message }
}

/// The outcome of a save, given the collection's answer to the insert:
/// success as it is, a failure with its message unchanged.
pub open spec fn save_outcome(answer: Result<(), String>) -> Result<(), StoreError> {
    match answer {
        Ok(_) => Ok(()),
        Err(message) => Err(transport(message)),
    }
}

/// What a lookup makes of the document that the collection gave, or of its
/// giving none: "not found" where there is none, the record where the
/// document stores one, and `StoreError::Malformed` where it stores none.
pub open spec fn reading(found: Option<Fields>) -> Result<Option<FooView>, StoreError> {
    match found {
        None => Ok(None),
        Some(fields) => match decoded(fields) {
            Some(record) => Ok(Some(record)),
            None => Err(StoreError::Malformed),
        },
    }
}

/// The outcome of a lookup, with the record taken by its view.
pub open spec fn outcome_view(outcome: Result<Option<Foo>, StoreError>) -> Result<
    Option<FooView>,
    StoreError,
> {
    match outcome {
        Ok(Some(foo)) => Ok(Some(foo@)),
        Ok(None) => Ok(None),
        Err(error) => Err(error),
    }
}

/// The outcome of a lookup, given the collection's answer to it.
pub open spec fn find_outcome(answer: Result<Option<Document>, String>) -> Result<
    Option<FooView>,
    StoreError,
> {
    match answer {
        Ok(found) => reading(found_fields(found)),
        Err(message) => Err(transport(message)),
    }
}

/// The data access layer. It names the store, the database in it and the
/// collection in that database which holds the records.
#[derive(Debug, Clone, PartialEq, Eq)]
pub struct TestDao {
    pub uri: String,
    pub database: String,
    pub collection: String,
}

impl TestDao {
    /// The layer for the collection `products` of the database `test`, in
    /// the store at `mongodb://localhost:27017`.
    pub fn new() -> (dao: TestDao)
        ensures
            dao.uri@ == "mongodb://localhost:27017"@,
            dao.database@ == "test"@,
            dao.collection@ == "products"@,
    {
        TestDao {
            uri: "mongodb://localhost:27017".to_owned(),
            database: "test".to_owned(),
            collection: "products".to_owned(),
        }
    }

    /// The document to insert into the collection in order to save `foo`. It
    /// is the same whatever the collection holds: nothing is looked up first.
    pub fn save(&self, foo: &Foo) -> (document: Document)
        ensures
            document_fields(document) == record_fields(foo@),
    {
        to_document(foo)
    }

    /// The outcome of a save, given the collection's answer to the insert.
    pub fn saved(&self, answer: Result<(), String>) -> (outcome: Result<(), StoreError>)
        ensures
            outcome == save_outcome(answer),
    {
        match answer {
            Ok(_) => Ok(()),
            Err(message) => Err(StoreError::Transport { message }),
        }
    }

    /// The filter to look up in the collection, for its first match, in order
    /// to find the record with the identifier `id`.
    pub fn find_by_id(&self, id: &String) -> (filter: Document)
        ensures
            document_fields(filter) == filter_fields(id@),
            is_id_filter(document_fields(filter)),
    {
        id_filter(id.as_str())
    }

    /// The outcome of a lookup, given the collection's answer to it: `None`
    /// where the collection gave no document, the record that the document
    /// stores where it gave one, `StoreError::Malformed` where that document
    /// stores no record, and a failure of the collection with its message
    /// unchanged.
    pub fn found(&self, answer: Result<Option<Document>, String>) -> (outcome: Result<
        Option<Foo>,
        StoreError,
    >)
        ensures
            outcome_view(outcome) == find_outcome(answer),
    {
        match answer {
            Err(message) => Err(StoreError::Transport { message }),
            Ok(None) => Ok(None),
            Ok(Some(document)) => match from_document(&document) {
                Ok(foo) => Ok(Some(foo)),
                Err(error) => Err(error),
            },
        }
    }
}

} // verus!
