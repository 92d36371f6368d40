//! The stored document: the shape in which a record is written to the store
//! and read back, with the field `id` for the identifier and the field `test`
//! for the payload.
//!
//! Documents are `bson::Document` values. This module reads and fills them
//! through a handful of that type's methods, whose contracts are trusted and
//! speak of [`document_fields`].

use vstd::prelude::*;
use bson::Document;
use crate::error::StoreError;
use crate::record::{Foo, FooView};

verus! {

#[verifier::external_type_specification]
#[verifier::external_body]
pub struct ExDocument(bson::Document);

/// What a document holds under one key, as far as this library tells values
/// apart: a string, a 32-bit integer, a 64-bit integer, or anything else.
pub enum FieldValue {
    Text(Seq<char>),
    Int32(i32),
    Int64(i64),
    Other,
}

/// The fields of a document: its keys, each with what it holds.
pub type Fields = Map<Seq<char>, FieldValue>;

// The fields that a `bson::Document` holds. A value that is a `Bson::String`
// stands as `Text`, a `Bson::Int32` as `Int32`, a `Bson::Int64` as `Int64`, and
// a value of any other kind as `Other`.
pub uninterp spec fn document_fields(document: Document) -> Map<Seq<char>, FieldValue>;

/// A document without fields.
pub open spec fn no_fields() -> Fields {
    Map::empty()
}

/// The key under which a stored document holds the record's identifier.
pub open spec fn id_key() -> Seq<char> {
    "id"@
}

/// The key under which a stored document holds the record's payload.
pub open spec fn test_key() -> Seq<char> {
    "test"@
}

/// The string under `key`, if there is one.
pub open spec fn text_of(fields: Fields, key: Seq<char>) -> Option<Seq<char>> {
    if fields.contains_key(key) {
        match fields[key] {
            FieldValue::Text(text) => Some(text),
            _ => None,
        }
    } else {
        None
    }
}

/// The 32-bit integer under `key`, if there is one.
pub open spec fn int32_of(fields: Fields, key: Seq<char>) -> Option<i32> {
    if fields.contains_key(key) {
        match fields[key] {
            FieldValue::Int32(number) => Some(number),
            _ => None,
        }
    } else {
        None
    }
}

/// The 64-bit integer under `key`, if there is one.
pub open spec fn int64_of(fields: Fields, key: Seq<char>) -> Option<i64> {
    if fields.contains_key(key) {
        match fields[key] {
            FieldValue::Int64(number) => Some(number),
            _ => None,
        }
    } else {
        None
    }
}

/// The integer under `key`, of either width, if there is one.
pub open spec fn integer_of(fields: Fields, key: Seq<char>) -> Option<int> {
    match (int32_of(fields, key), int64_of(fields, key)) {
        (Some(number), _) => Some(number as int),
        (None, Some(number)) => Some(number as int),
        (None, None) => None,
    }
}

/// The fields are `count` in number.
pub open spec fn has_count(fields: Fields, count: usize) -> bool {
    fields.dom().finite() && fields.dom().len() == count
}

/// The fields of the document that stores `record`.
pub open spec fn record_fields(record: FooView) -> Fields {
    no_fields().insert(id_key(), FieldValue::Text(record.id)).insert(
        test_key(),
        FieldValue::Int32(record.test as i32),
    )
}

/// The fields of the filter that asks for the documents whose identifier is
/// `id`.
pub open spec fn filter_fields(id: Seq<char>) -> Fields {
    no_fields().insert(id_key(), FieldValue::Text(id))
}

/// The filter asks for one identifier and nothing else: its only key is `id`,
/// and it holds a string under it.
pub open spec fn is_id_filter(filter: Fields) -> bool {
    match text_of(filter, id_key()) {
        Some(id) => filter =~= filter_fields(id),
        None => false,
    }
}

/// The record that a document with these fields stores, if it stores one. It
/// does when `id` holds a string and `test` holds an integer, of either
/// width, that fits in 32 bits. Other fields are passed over.
pub open spec fn decoded(fields: Fields) -> Option<FooView> {
    match (text_of(fields, id_key()), integer_of(fields, test_key())) {
        (Some(id), Some(number)) => if i32::MIN <= number <= i32::MAX {
            Some(FooView { id, test: number })
        } else {
            None
        },
        _ => None,
    }
}

/// `bson::Document::new`.
///
/// Trusted: the new document has no fields.
#[verifier::external_body]
fn empty_document() -> (document: Document)
    ensures
        document_fields(document) == no_fields(),
{
    Document::new()
}

/// `bson::Document::insert`, with a string as the value.
///
/// Trusted: afterwards `key` holds the string, in place of what it held
/// before if it held anything, and every other key holds what it held.
#[verifier::external_body]
fn put_text(document: &mut Document, key: &str, value: &str)
    ensures
        document_fields(*final(document)) == document_fields(*old(document)).insert(
            key@,
            FieldValue::Text(value@),
        ),
{
    document.insert(key, value);
}

/// `bson::Document::insert`, with an `i32` as the value.
///
/// Trusted: afterwards `key` holds the number as a 32-bit integer, in place
/// of what it held before if it held anything, and every other key holds what
/// it held.
#[verifier::external_body]
fn put_int32(document: &mut Document, key: &str, value: i32)
    ensures
        document_fields(*final(document)) == document_fields(*old(document)).insert(
            key@,
            FieldValue::Int32(value),
        ),
{
    document.insert(key, value);
}

/// `bson::Document::get_str`.
///
/// Trusted: the result is the string under `key`, and `None` where the
/// document has no such key or holds something else under it.
#[verifier::external_body]
pub(crate) fn text_at(document: &Document, key: &str) -> (text: Option<String>)
    ensures
        match text {
            Some(found) => text_of(document_fields(*document), key@) == Some(found@),
            None => text_of(document_fields(*document), key@) is None,
        },
{
    match document.get_str(key) {
        Ok(found) => Some(found.to_string()),
        Err(_) => None,
    }
}

/// `bson::Document::get_i32`.
///
/// Trusted: the result is the 32-bit integer under `key`, and `None` where
/// the document has no such key or holds something else under it.
#[verifier::external_body]
fn int32_at(document: &Document, key: &str) -> (number: Option<i32>)
    ensures
        number == int32_of(document_fields(*document), key@),
{
    match document.get_i32(key) {
        Ok(found) => Some(found),
        Err(_) => None,
    }
}

/// `bson::Document::get_i64`.
///
/// Trusted: the result is the 64-bit integer under `key`, and `None` where
/// the document has no such key or holds something else under it.
#[verifier::external_body]
fn int64_at(document: &Document, key: &str) -> (number: Option<i64>)
    ensures
        number == int64_of(document_fields(*document), key@),
{
    match document.get_i64(key) {
        Ok(found) => Some(found),
        Err(_) => None,
    }
}

/// `bson::Document::len`.
///
/// Trusted: the document has finitely many keys, and the result is their
/// number.
#[verifier::external_body]
pub(crate) fn field_count(document: &Document) -> (count: usize)
    ensures
        has_count(document_fields(*document), count),
{
    document.len()
}

/// `Clone::clone` of a `bson::Document`.
///
/// Trusted: the copy holds the same fields as the document.
#[verifier::external_body]
pub(crate) fn copy_document(document: &Document) -> (copy: Document)
    ensures
        document_fields(copy) == document_fields(*document),
{
    document.clone()
}

/// The two keys of a stored document differ.
pub proof fn lemma_keys_differ()
    ensures
        id_key() != test_key(),
        id_key().len() == 2,
        test_key().len() == 4,
{
    reveal_strlit("id");
    reveal_strlit("test");
    assert("id"@.len() == 2);
    assert("test"@.len() == 4);
}

/// The document that stores `foo`: `id` holds the identifier as a string,
/// `test` holds the payload as a 32-bit integer, and there is no other field.
pub fn to_document(foo: &Foo) -> (document: Document)
    ensures
        document_fields(document) == record_fields(foo@),
{
    let mut document = empty_document();
    put_text(&mut document, "id", foo.id.as_str());
    put_int32(&mut document, "test", foo.test);
    document
}

/// The filter that selects the documents whose `id` is the string `id`: its
/// only field is `id`, and it holds that string.
pub fn id_filter(id: &str) -> (filter: Document)
    ensures
        document_fields(filter) == filter_fields(id@),
        is_id_filter(document_fields(filter)),
{
    let mut filter = empty_document();
    put_text(&mut filter, "id", id);
    filter
}

/// Reads a record out of a document. It succeeds exactly on the documents
/// that store a record, and then gives that record; on every other document
/// it reports `StoreError::Malformed`.
pub fn from_document(document: &Document) -> (outcome: Result<Foo, StoreError>)
    ensures
        match outcome {
            Ok(foo) => decoded(document_fields(*document)) == Some(foo@),
            Err(error) => decoded(document_fields(*document)) is None && error
                == StoreError::Malformed,
        },
{
    let id = match text_at(document, "id") {
        Some(id) => id,
        None => {
            return Err(StoreError::Malformed);
        },
    };
    match int32_at(document, "test") {
        Some(test) => Ok(Foo { id, test }),
        None => match int64_at(document, "test") {
            Some(wide) => {
                if -2147483648 <= wide && wide <= 2147483647 {
                    Ok(Foo { id, test: wide as i32 })
                } else {
                    Err(StoreError::Malformed)
                }
            },
            None => Err(StoreError::Malformed),
        },
    }
}

} // verus!
