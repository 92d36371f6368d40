//! What the data access layer expects of a collection of the store, written
//! down as a model, and a collection in memory that behaves so.
//!
//! A collection keeps every document that was inserted, in the order of the
//! inserts, and checks nothing on the way in: two documents may carry the same
//! identifier. A lookup answers with the first document that matches the
//! filter.

use vstd::prelude::*;
use bson::Document;
use crate::document::{
    copy_document,
    document_fields,
    field_count,
    filter_fields,
    id_key,
    is_id_filter,
    no_fields,
    text_at,
    text_of,
    FieldValue,
    Fields,
};

verus! {

/// A document matches a filter when it has every key of the filter and holds
/// under it what the filter holds.
pub open spec fn is_match(fields: Fields, filter: Fields) -> bool {
    forall|key: Seq<char>| #[trigger]
        filter.contains_key(key) ==> fields.contains_key(key) && fields[key] == filter[key]
}

/// The first of the stored documents that matches the filter, if one does.
pub open spec fn first_match(stored: Seq<Fields>, filter: Fields) -> Option<Fields>
    decreases stored.len(),
{
    if stored.len() == 0 {
        None
    } else if is_match(stored.first(), filter) {
        Some(stored.first())
    } else {
        first_match(stored.drop_first(), filter)
    }
}

/// The fields of the document that a lookup gave, if it gave one.
pub open spec fn found_fields(found: Option<Document>) -> Option<Fields> {
    match found {
        Some(document) => Some(document_fields(document)),
        None => None,
    }
}

/// A document matches the filter for an identifier exactly when it holds that
/// identifier, as a string, under `id`.
pub proof fn lemma_matches_id_filter(fields: Fields, id: Seq<char>)
    ensures
        is_match(fields, filter_fields(id)) <==> text_of(fields, id_key()) == Some(id),
{
    let filter = filter_fields(id);
    assert(filter.contains_key(id_key()));
    assert(filter[id_key()] == FieldValue::Text(id));
    if text_of(fields, id_key()) == Some(id) {
        assert forall|key: Seq<char>| #[trigger] filter.contains_key(key) implies fields.contains_key(
            key,
        ) && fields[key] == filter[key] by {
            assert(key == id_key());
        }
    }
}

/// Where no document among the first `checked` matches, the first match of
/// the whole is the first match of the rest.
pub proof fn lemma_first_match_skips(stored: Seq<Fields>, filter: Fields, checked: int)
    requires
        0 <= checked <= stored.len(),
        forall|i: int| 0 <= i < checked ==> !is_match(#[trigger] stored[i], filter),
    ensures
        first_match(stored, filter) == first_match(stored.skip(checked), filter),
    decreases checked,
{
    if checked == 0 {
        assert(stored.skip(0) =~= stored);
    } else {
        lemma_first_match_skips(stored, filter, checked - 1);
        let rest = stored.skip(checked - 1);
        assert(rest.first() == stored[checked - 1]);
        assert(rest.drop_first() =~= stored.skip(checked));
    }
}

/// A filter with a single field, which holds a string under `id`, asks for
/// that identifier and nothing else.
proof fn lemma_single_field_filter(filter: Fields, id: Seq<char>)
    requires
        filter.dom().finite(),
        filter.dom().len() == 1,
        text_of(filter, id_key()) == Some(id),
    ensures
        filter =~= filter_fields(id),
        is_id_filter(filter),
{
    let rest = filter.dom().remove(id_key());
    assert(rest.len() == 0);
    assert(rest =~= Set::<Seq<char>>::empty());
    assert forall|key: Seq<char>| filter.dom().contains(key) implies key == id_key() by {
        if key != id_key() {
            assert(rest.contains(key));
        }
    }
    assert(filter.dom() =~= filter_fields(id).dom());
}

/// A filter that asks for one identifier has a single field.
proof fn lemma_id_filter_count(filter: Fields)
    requires
        is_id_filter(filter),
    ensures
        filter.dom().finite(),
        filter.dom().len() == 1,
{
    let id = text_of(filter, id_key()).unwrap();
    assert(filter.dom() =~= Set::<Seq<char>>::empty().insert(id_key()));
    assert(no_fields().dom() =~= Set::<Seq<char>>::empty());
}

/// A collection held in memory.
pub struct MemoryStore {
    documents: Vec<Document>,
}

impl View for MemoryStore {
    type V = Seq<Fields>;

    /// The fields of each stored document, the document inserted first at
    /// the front.
    closed spec fn view(&self) -> Seq<Fields> {
        Seq::new(self.documents@.len(), |i: int| document_fields(self.documents@[i]))
    }
}

impl MemoryStore {
    /// A collection without documents.
    pub fn new() -> (store: MemoryStore)
        ensures
            store@ == Seq::<Fields>::empty(),
    {
        let store = MemoryStore { documents: Vec::new() };
        assert(store@ =~= Seq::<Fields>::empty());
        store
    }

    /// The number of stored documents.
    pub fn len(&self) -> (count: usize)
        ensures
            count == self@.len(),
    {
        self.documents.len()
    }

    /// Stores the document behind those already stored, whatever it holds
    /// and whatever they hold. It never fails.
    pub fn insert_one(&mut self, document: Document) -> (answer: Result<(), String>)
        ensures
            answer == Ok::<(), String>(()),
            final(self)@ == old(self)@.push(document_fields(document)),
    {
        self.documents.push(document);
        assert(self@ =~= old(self)@.push(document_fields(document)));
        Ok(())
    }

    /// Looks up the first stored document that matches the filter, and
    /// answers with a copy of it, or with `None` where no document matches.
    ///
    /// This collection understands the filters that ask for one identifier
    /// and nothing else. It fails on every other filter, and only there.
    pub fn find_one(&self, filter: &Document) -> (answer: Result<Option<Document>, String>)
        ensures
            match answer {
                Ok(found) => is_id_filter(document_fields(*filter)) && found_fields(found)
                    == first_match(self@, document_fields(*filter)),
                Err(_) => !is_id_filter(document_fields(*filter)),
            },
    {
        let asked = text_at(filter, "id");
        let count = field_count(filter);
        let id = match asked {
            Some(id) => id,
            None => {
                return Err("unsupported filter".to_owned());
            },
        };
        if count != 1 {
            proof {
                if is_id_filter(document_fields(*filter)) {
                    lemma_id_filter_count(document_fields(*filter));
                }
            }
            return Err("unsupported filter".to_owned());
        }
        proof {
            lemma_single_field_filter(document_fields(*filter), id@);
        }
        let ghost wanted = document_fields(*filter);
        let mut at: usize = 0;
        while at < self.documents.len()
            invariant
                0 <= at <= self.documents@.len(),
                wanted == document_fields(*filter),
                wanted == filter_fields(id@),
                is_id_filter(wanted),
                forall|i: int| 0 <= i < at ==> !is_match(#[trigger] self@[i], wanted),
            decreases self.documents@.len() - at,
        {
            let held = text_at(&self.documents[at], "id");
            proof {
                lemma_matches_id_filter(self@[at as int], id@);
            }
            let hit = match held {
                Some(text) => text == id,
                None => false,
            };
            if hit {
                let copy = copy_document(&self.documents[at]);
                proof {
                    lemma_first_match_skips(self@, wanted, at as int);
                    assert(self@.skip(at as int).first() == self@[at as int]);
                }
                return Ok(Some(copy));
            }
            at += 1;
        }
        proof {
            lemma_first_match_skips(self@, wanted, at as int);
            assert(self@.skip(at as int).len() == 0);
        }
        Ok(None)
    }
}

} // verus!
