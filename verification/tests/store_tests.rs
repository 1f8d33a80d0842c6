use newsletter_core::store::{StoreError, SubscriberStore};

#[test]
fn list_on_empty_store_is_empty() {
    let mut s = SubscriberStore::new();
    s.ensure_schema();
    assert_eq!(s.list_emails().len(), 0);
}

#[test]
fn ensure_schema_twice_produces_no_error_and_keeps_rows() {
    let mut s = SubscriberStore::new();
    s.ensure_schema();
    assert!(s.insert("a@x.com".to_owned(), 1).is_ok());
    s.ensure_schema();
    assert_eq!(s.list_emails(), vec!["a@x.com".to_owned()]);
}

#[test]
fn insert_returns_fully_populated_row() {
    let mut s = SubscriberStore::new();
    s.ensure_schema();
    let row = s.insert("a@x.com".to_owned(), 42).unwrap();
    assert_eq!(row.id, 1);
    assert_eq!(row.email, "a@x.com");
    assert_eq!(row.created_at, 42);
    let row2 = s.insert("b@x.com".to_owned(), 43).unwrap();
    assert_eq!(row2.id, 2);
    assert_eq!(row2.email, "b@x.com");
}

#[test]
fn second_insert_of_same_email_yields_conflict_and_no_second_row() {
    let mut s = SubscriberStore::new();
    s.ensure_schema();
    assert!(s.insert("a@x.com".to_owned(), 1).is_ok());
    let err = s.insert("a@x.com".to_owned(), 2).unwrap_err();
    assert_eq!(err, StoreError::Conflict);
    assert_eq!(s.list_emails(), vec!["a@x.com".to_owned()]);
}

#[test]
fn delete_of_absent_email_returns_false_not_an_error() {
    let mut s = SubscriberStore::new();
    s.ensure_schema();
    assert!(!s.delete_by_email(&"ghost@x.com".to_owned()));
    assert_eq!(s.list_emails().len(), 0);
}

#[test]
fn delete_of_present_email_returns_true_and_listing_excludes_it() {
    let mut s = SubscriberStore::new();
    s.ensure_schema();
    assert!(s.insert("a@x.com".to_owned(), 1).is_ok());
    assert!(s.insert("b@x.com".to_owned(), 2).is_ok());
    assert!(s.delete_by_email(&"a@x.com".to_owned()));
    let emails = s.list_emails();
    assert_eq!(emails, vec!["b@x.com".to_owned()]);
    assert!(!emails.contains(&"a@x.com".to_owned()));
}

#[test]
fn listing_keeps_insertion_order() {
    let mut s = SubscriberStore::new();
    s.ensure_schema();
    assert!(s.insert("a@x.com".to_owned(), 1).is_ok());
    assert!(s.insert("b@x.com".to_owned(), 2).is_ok());
    assert!(s.insert("c@x.com".to_owned(), 3).is_ok());
    assert_eq!(
        s.list_emails(),
        vec!["a@x.com".to_owned(), "b@x.com".to_owned(), "c@x.com".to_owned()]
    );
}
