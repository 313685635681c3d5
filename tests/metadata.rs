use soar::key::Key;
use soar::metadata::{updated_metadata, CollectionRef, MetadataFields};

fn key(b: u8) -> Key {
    Key::new([b; 32])
}

fn current() -> MetadataFields {
    MetadataFields {
        name: String::from("Medal"),
        symbol: String::from("MDL"),
        uri: String::from("https://a"),
        collection: Some(CollectionRef { key: key(1), verified: true }),
    }
}

#[test]
fn absent_fields_are_kept() {
    let m = updated_metadata(current(), None, None, None, None);
    assert_eq!(m.name, "Medal");
    assert_eq!(m.symbol, "MDL");
    assert_eq!(m.uri, "https://a");
    let c = m.collection.unwrap();
    assert!(c.key == key(1) && c.verified);
}

#[test]
fn given_fields_replace_and_new_collection_is_unverified() {
    let m = updated_metadata(current(), Some(String::from("Cup")), None, Some(String::from("https://b")), Some(key(2)));
    assert_eq!(m.name, "Cup");
    assert_eq!(m.symbol, "MDL");
    assert_eq!(m.uri, "https://b");
    let c = m.collection.unwrap();
    assert!(c.key == key(2));
    assert!(!c.verified);
}
