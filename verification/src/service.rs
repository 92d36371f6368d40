//! The record service: the seam between the code that faces requests and the
//! data access layer. It adds nothing of its own, so every operation is the
//! layer's.

use vstd::prelude::*;
use bson::Document;
use crate::dao::{find_outcome, outcome_view, save_outcome, TestDao};
use crate::document::{document_fields, filter_fields, is_id_filter, record_fields};
use crate::error::StoreError;
use crate::record::Foo;

verus! {

/// The record service over one data access layer.
#[derive(Debug, Clone, PartialEq, Eq)]
pub struct FooService {
    pub test_dao: TestDao,
}

impl FooService {
    /// The service over the data access layer that `TestDao::new` gives.
    pub fn new() -> (service: FooService)
        ensures
            service.test_dao.uri@ == "mongodb://localhost:27017"@,
            service.test_dao.database@ == "test"@,
            service.test_dao.collection@ == "products"@,
    {
        FooService { test_dao: TestDao::new() }
    }

    /// The document to insert in order to save `foo`, as the layer gives it.
    pub fn save(&self, foo: &Foo) -> (document: Document)
        ensures
            document_fields(document) == record_fields(foo@),
    {
        self.test_dao.save(foo)
    }

    /// The outcome of a save, as the layer gives it: a failure of the
    /// collection passes through unchanged.
    pub fn saved(&self, answer: Result<(), String>) -> (outcome: Result<(), StoreError>)
        ensures
            outcome == save_outcome(answer),
    {
        self.test_dao.saved(answer)
    }

    /// The filter to look up in order to find the record with the identifier
    /// `id`, as the layer gives it.
    pub fn find_by_id(&self, id: &String) -> (filter: Document)
        ensures
            document_fields(filter) == filter_fields(id@),
            is_id_filter(document_fields(filter)),
    {
        self.test_dao.find_by_id(id)
    }

    /// The outcome of a lookup, as the layer gives it.
    pub fn found(&self, answer: Result<Option<Document>, String>) -> (outcome: Result<
        Option<Foo>,
        StoreError,
    >)
        ensures
            outcome_view(outcome) == find_outcome(answer),
    {
        self.test_dao.found(answer)
    }
}

} // verus!
