//! What holds of saving and finding, for every record and every collection
//! that keeps its documents as `crate::store` describes.
//!
//! Each statement is about the documents that `TestDao::save` and
//! `TestDao::find_by_id` hand to the collection, the collection's first match,
//! and what `TestDao::found` makes of it.

use vstd::prelude::*;
use crate::dao::reading;
use crate::document::{
    decoded,
    filter_fields,
    id_key,
    lemma_keys_differ,
    record_fields,
    test_key,
    text_of,
    FieldValue,
    Fields,
};
use crate::error::StoreError;
use crate::record::{Foo, FooView};
use crate::store::{first_match, is_match, lemma_first_match_skips, lemma_matches_id_filter};

verus! {

/// No stored document holds the identifier `id`.
pub open spec fn is_unused(stored: Seq<Fields>, id: Seq<char>) -> bool {
    forall|i: int| 0 <= i < stored.len() ==> text_of(#[trigger] stored[i], id_key()) != Some(id)
}

/// The outcome of a lookup that found this record.
pub open spec fn found_record(record: FooView) -> Result<Option<FooView>, StoreError> {
    Ok(Some(record))
}

/// The outcome of a lookup that found nothing.
pub open spec fn not_found() -> Result<Option<FooView>, StoreError> {
    Ok(None)
}

/// The first match after one more insert: what it was before, if there was
/// one, and else the new document if it matches.
pub proof fn lemma_first_match_after_insert(stored: Seq<Fields>, added: Fields, filter: Fields)
    ensures
        first_match(stored.push(added), filter) == match first_match(stored, filter) {
            Some(earlier) => Some(earlier),
            None => if is_match(added, filter) {
                Some(added)
            } else {
                None
            },
        },
    decreases stored.len(),
{
    let after = stored.push(added);
    if stored.len() == 0 {
        assert(after.first() == added);
        assert(after.drop_first().len() == 0);
    } else {
        assert(after.first() == stored.first());
        assert(after.drop_first() =~= stored.drop_first().push(added));
        lemma_first_match_after_insert(stored.drop_first(), added, filter);
    }
}

/// The document that stores a record holds the record's identifier under
/// `id`, and reading it gives the record back.
pub proof fn stored_record_reads_back(foo: Foo)
    ensures
        text_of(record_fields(foo@), id_key()) == Some(foo.id@),
        decoded(record_fields(foo@)) == Some(foo@),
        is_match(record_fields(foo@), filter_fields(foo.id@)),
{
    lemma_keys_differ();
    let fields = record_fields(foo@);
    assert(fields.contains_key(id_key()));
    assert(fields[id_key()] == FieldValue::Text(foo.id@));
    assert(fields.contains_key(test_key()));
    assert(fields[test_key()] == FieldValue::Int32(foo.test));
    lemma_matches_id_filter(fields, foo.id@);
}

/// Saving a record under an identifier that no stored document holds, and
/// then finding by that identifier, gives back a record equal to the one
/// saved: the same identifier and the same payload, whatever the payload.
pub proof fn save_then_find(stored: Seq<Fields>, foo: Foo)
    requires
        is_unused(stored, foo.id@),
    ensures
        reading(first_match(stored.push(record_fields(foo@)), filter_fields(foo.id@)))
            == found_record(foo@),
{
    let after = stored.push(record_fields(foo@));
    assert(after[stored.len() as int] == record_fields(foo@));
    assert forall|i: int| 0 <= i < after.len() && i != stored.len() implies text_of(
        #[trigger] after[i],
        id_key(),
    ) != Some(foo.id@) by {
        assert(after[i] == stored[i]);
    }
    found_among_others(after, foo, stored.len() as int);
}

/// Finding by an identifier that no stored document holds gives "not found",
/// and no failure.
pub proof fn unused_identifier_is_not_found(stored: Seq<Fields>, id: Seq<char>)
    requires
        is_unused(stored, id),
    ensures
        reading(first_match(stored, filter_fields(id))) == not_found(),
{
    let filter = filter_fields(id);
    assert forall|i: int| 0 <= i < stored.len() implies !is_match(#[trigger] stored[i], filter) by {
        lemma_matches_id_filter(stored[i], id);
    }
    lemma_first_match_skips(stored, filter, stored.len() as int);
    assert(stored.skip(stored.len() as int).len() == 0);
}

/// A lookup that follows a save, by the saved record's identifier, always
/// finds a document that holds this identifier. It is the document just
/// saved, unless an earlier document holds the identifier too: then it is the
/// earliest of those.
pub proof fn find_after_save_sees_the_identifier(stored: Seq<Fields>, foo: Foo)
    ensures
        first_match(stored.push(record_fields(foo@)), filter_fields(foo.id@)) == match first_match(
            stored,
            filter_fields(foo.id@),
        ) {
            Some(earlier) => Some(earlier),
            None => Some(record_fields(foo@)),
        },
        first_match(stored.push(record_fields(foo@)), filter_fields(foo.id@)) is Some,
{
    stored_record_reads_back(foo);
    lemma_first_match_after_insert(stored, record_fields(foo@), filter_fields(foo.id@));
}

/// A save under one identifier changes no lookup by another.
pub proof fn save_leaves_other_lookups(stored: Seq<Fields>, other: Foo, id: Seq<char>)
    requires
        other.id@ != id,
    ensures
        first_match(stored.push(record_fields(other@)), filter_fields(id)) == first_match(
            stored,
            filter_fields(id),
        ),
{
    stored_record_reads_back(other);
    lemma_matches_id_filter(record_fields(other@), id);
    lemma_first_match_after_insert(stored, record_fields(other@), filter_fields(id));
}

/// Where a record's document is stored and no other stored document holds
/// its identifier, finding by that identifier gives exactly this record,
/// whatever else is stored and in whatever order the saves came. So saves
/// under distinct identifiers, however they interleave, do not disturb one
/// another: each lookup gives its own record's payload.
pub proof fn found_among_others(stored: Seq<Fields>, foo: Foo, at: int)
    requires
        0 <= at < stored.len(),
        stored[at] == record_fields(foo@),
        forall|i: int|
            0 <= i < stored.len() && i != at ==> text_of(#[trigger] stored[i], id_key()) != Some(
                foo.id@,
            ),
    ensures
        reading(first_match(stored, filter_fields(foo.id@))) == found_record(foo@),
{
    let filter = filter_fields(foo.id@);
    stored_record_reads_back(foo);
    assert forall|i: int| 0 <= i < at implies !is_match(#[trigger] stored[i], filter) by {
        lemma_matches_id_filter(stored[i], foo.id@);
    }
    lemma_first_match_skips(stored, filter, at);
    let rest = stored.skip(at);
    assert(rest.first() == stored[at]);
}

} // verus!
