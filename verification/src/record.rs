//! The record: an identifier and an integer payload.

use vstd::prelude::*;
use crate::identifier::{generate, is_identifier};

verus! {

/// A record as it is held in memory. Both fields are fixed when the record is
/// made; nothing in this library changes them afterwards.
#[derive(Debug, Clone, PartialEq, Eq)]
pub struct Foo {
    pub id: String,
    pub test: i32,
}

/// What a record is: the characters of its identifier and its payload.
pub struct FooView {
    pub id: Seq<char>,
    pub test: int,
}

impl View for Foo {
    type V = FooView;

    open spec fn view(&self) -> FooView {
        FooView { id: self.id@, test: self.test as int }
    }
}

impl Foo {
    /// A new record for `test`, under a fresh identifier in canonical form.
    pub fn new(test: i32) -> (foo: Foo)
        ensures
            foo.test == test,
            is_identifier(foo.id@),
            foo.id@.len() > 0,
    {
        Foo { id: generate(), test }
    }
}

} // verus!
