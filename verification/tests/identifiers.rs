use record_store::identifier::{generate, IDENTIFIER_LEN};
use record_store::record::Foo;
use std::collections::HashSet;

fn is_lower_hex(c: char) -> bool {
    ('0'..='9').contains(&c) || ('a'..='f').contains(&c)
}

fn assert_canonical(id: &str) {
    let chars: Vec<char> = id.chars().collect();
    assert_eq!(chars.len(), 36);
    for (at, c) in chars.iter().enumerate() {
        if at == 8 || at == 13 || at == 18 || at == 23 {
            assert_eq!(*c, '-');
        } else {
            assert!(is_lower_hex(*c));
        }
    }
    assert_eq!(chars[14], '4');
    assert!(matches!(chars[19], '8' | '9' | 'a' | 'b'));
}

#[test]
fn identifier_length_is_thirty_six() {
    assert_eq!(IDENTIFIER_LEN, 36);
    assert_eq!(generate().len(), 36);
}

#[test]
fn generated_identifiers_are_canonical() {
    for _ in 0..200 {
        assert_canonical(&generate());
    }
}

#[test]
fn generated_identifiers_are_distinct() {
    let mut seen = HashSet::new();
    for _ in 0..5000 {
        assert!(seen.insert(generate()));
    }
    assert_eq!(seen.len(), 5000);
}

#[test]
fn new_record_has_its_payload_and_a_canonical_identifier() {
    let foo = Foo::new(42);
    assert_eq!(foo.test, 42);
    assert!(!foo.id.is_empty());
    assert_canonical(&foo.id);
    let low = Foo::new(i32::MIN);
    assert_eq!(low.test, i32::MIN);
    assert_canonical(&low.id);
}

#[test]
fn new_records_have_distinct_identifiers() {
    let mut seen = HashSet::new();
    for payload in 0..2000 {
        assert!(seen.insert(Foo::new(payload % 3).id));
    }
}
