use bson::Document;
use record_store::dao::TestDao;
use record_store::error::StoreError;
use record_store::record::Foo;
use record_store::service::FooService;
use record_store::store::MemoryStore;

fn transport(message: &str) -> StoreError {
    StoreError::Transport { message: message.to_string() }
}

#[test]
fn save_gives_the_document_to_insert() {
    let dao = TestDao::new();
    let document = dao.save(&Foo { id: "abc-123".to_string(), test: 42 });
    assert_eq!(document.len(), 2);
    assert_eq!(document.get_str("id"), Ok("abc-123"));
    assert_eq!(document.get_i32("test"), Ok(42));
    let service = FooService::new();
    assert_eq!(service.save(&Foo { id: "abc-123".to_string(), test: 42 }), document);
}

#[test]
fn find_gives_the_filter_to_look_up() {
    let dao = TestDao::new();
    let filter = dao.find_by_id(&"abc-123".to_string());
    assert_eq!(filter.len(), 1);
    assert_eq!(filter.get_str("id"), Ok("abc-123"));
    let service = FooService::new();
    assert_eq!(service.find_by_id(&"abc-123".to_string()), filter);
}

#[test]
fn failed_insert_passes_through_unchanged() {
    let dao = TestDao::new();
    assert_eq!(dao.saved(Err("connection reset".to_string())), Err(transport("connection reset")));
    assert_eq!(dao.saved(Err(String::new())), Err(transport("")));
    let service = FooService::new();
    assert_eq!(service.saved(Err("timed out".to_string())), Err(transport("timed out")));
}

#[test]
fn successful_insert_is_a_successful_save() {
    assert_eq!(TestDao::new().saved(Ok(())), Ok(()));
    assert_eq!(FooService::new().saved(Ok(())), Ok(()));
}

#[test]
fn failed_lookup_passes_through_unchanged() {
    let dao = TestDao::new();
    assert_eq!(dao.found(Err("no primary".to_string())), Err(transport("no primary")));
    let service = FooService::new();
    assert_eq!(service.found(Err("no primary".to_string())), Err(transport("no primary")));
}

#[test]
fn lookup_without_document_is_not_found() {
    assert_eq!(TestDao::new().found(Ok(None)), Ok(None));
    assert_eq!(FooService::new().found(Ok(None)), Ok(None));
}

#[test]
fn lookup_with_stored_record_gives_the_record() {
    let mut document = Document::new();
    document.insert("id", "abc-123");
    document.insert("test", 42);
    let expected = Foo { id: "abc-123".to_string(), test: 42 };
    assert_eq!(TestDao::new().found(Ok(Some(document.clone()))), Ok(Some(expected.clone())));
    assert_eq!(FooService::new().found(Ok(Some(document))), Ok(Some(expected)));
}

#[test]
fn lookup_with_other_document_is_malformed() {
    let mut document = Document::new();
    document.insert("id", "abc-123");
    assert_eq!(TestDao::new().found(Ok(Some(document.clone()))), Err(StoreError::Malformed));
    assert_eq!(FooService::new().found(Ok(Some(document))), Err(StoreError::Malformed));
}

#[test]
fn malformed_first_match_is_reported() {
    let dao = TestDao::new();
    let mut store = MemoryStore::new();
    let mut broken = Document::new();
    broken.insert("id", "abc");
    broken.insert("test", "not a number");
    assert_eq!(store.insert_one(broken), Ok(()));
    assert_eq!(dao.saved(store.insert_one(dao.save(&Foo { id: "abc".to_string(), test: 1 }))), Ok(()));
    let found = dao.found(store.find_one(&dao.find_by_id(&"abc".to_string())));
    assert_eq!(found, Err(StoreError::Malformed));
}

#[test]
fn store_answers_with_a_copy_of_the_first_match() {
    let mut store = MemoryStore::new();
    let mut first = Document::new();
    first.insert("id", "abc");
    first.insert("test", 1);
    first.insert("extra", "one");
    let mut second = Document::new();
    second.insert("id", "abc");
    second.insert("test", 2);
    let mut third = Document::new();
    third.insert("id", "xyz");
    third.insert("test", 3);
    assert_eq!(store.insert_one(first.clone()), Ok(()));
    assert_eq!(store.insert_one(second), Ok(()));
    assert_eq!(store.insert_one(third.clone()), Ok(()));
    assert_eq!(store.len(), 3);
    let dao = TestDao::new();
    assert_eq!(store.find_one(&dao.find_by_id(&"abc".to_string())), Ok(Some(first)));
    assert_eq!(store.find_one(&dao.find_by_id(&"xyz".to_string())), Ok(Some(third)));
    assert_eq!(store.find_one(&dao.find_by_id(&"ab".to_string())), Ok(None));
    assert_eq!(store.len(), 3);
}

#[test]
fn store_skips_documents_whose_identifier_is_no_string() {
    let mut store = MemoryStore::new();
    let mut numbered = Document::new();
    numbered.insert("id", 7);
    let mut bare = Document::new();
    bare.insert("test", 7);
    let mut named = Document::new();
    named.insert("id", "7");
    assert_eq!(store.insert_one(numbered), Ok(()));
    assert_eq!(store.insert_one(bare), Ok(()));
    assert_eq!(store.insert_one(named.clone()), Ok(()));
    let filter = TestDao::new().find_by_id(&"7".to_string());
    assert_eq!(store.find_one(&filter), Ok(Some(named)));
}

#[test]
fn store_refuses_other_filters() {
    let mut store = MemoryStore::new();
    let mut document = Document::new();
    document.insert("id", "abc");
    document.insert("test", 1);
    assert_eq!(store.insert_one(document), Ok(()));

    assert!(store.find_one(&Document::new()).is_err());

    let mut by_number = Document::new();
    by_number.insert("id", 1);
    assert!(store.find_one(&by_number).is_err());

    let mut by_payload = Document::new();
    by_payload.insert("test", 1);
    assert!(store.find_one(&by_payload).is_err());

    let mut by_both = Document::new();
    by_both.insert("id", "abc");
    by_both.insert("test", 1);
    assert!(store.find_one(&by_both).is_err());

    let refused = TestDao::new().found(store.find_one(&by_both));
    assert!(matches!(refused, Err(StoreError::Transport { .. })));
}
