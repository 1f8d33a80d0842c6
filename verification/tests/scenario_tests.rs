//! End-to-end request scenarios: subscribe, list, unsubscribe, with the
//! replies a client would see.
use newsletter_core::reply::{list_reply, subscribe_reply, unsubscribe_reply};
use newsletter_core::store::{StoreError, SubscriberStore};
use newsletter_core::workflow::{handle_subscribe, SubscribeOutcome};

#[test]
fn subscribe_on_empty_store_is_created_and_listed() {
    let mut s = SubscriberStore::new();
    s.ensure_schema();
    let outcome = handle_subscribe(&mut s, "a@x.com".to_owned(), 1, true);
    let reply = subscribe_reply(&outcome, &"a@x.com".to_owned());
    assert_eq!(reply.status, 201);
    assert!(reply.success);
    assert_eq!(reply.message, "Subscription successful");
    assert_eq!(reply.data.expect("a created subscription echoes the email").email, "a@x.com");

    let listing = list_reply(Ok(s.list_emails()));
    assert_eq!(listing.status, 200);
    assert!(listing.success);
    assert_eq!(listing.data.emails, vec!["a@x.com".to_owned()]);
    assert_eq!(listing.message, "Subscribers retrieved successfully");
}

#[test]
fn repeated_subscribe_is_a_conflict_and_the_store_keeps_one_row() {
    let mut s = SubscriberStore::new();
    s.ensure_schema();
    let first = handle_subscribe(&mut s, "a@x.com".to_owned(), 1, true);
    assert!(subscribe_reply(&first, &"a@x.com".to_owned()).success);

    let second = handle_subscribe(&mut s, "a@x.com".to_owned(), 2, true);
    let reply = subscribe_reply(&second, &"a@x.com".to_owned());
    assert_eq!(reply.status, 409);
    assert!(!reply.success);
    assert_eq!(reply.message, "Email already subscribed");
    assert!(reply.data.is_none());
    assert_eq!(s.list_emails(), vec!["a@x.com".to_owned()]);
}

#[test]
fn unsubscribe_after_subscribe_removes_and_empties_the_listing() {
    let mut s = SubscriberStore::new();
    s.ensure_schema();
    handle_subscribe(&mut s, "a@x.com".to_owned(), 1, true);

    let removed = s.delete_by_email(&"a@x.com".to_owned());
    let reply = unsubscribe_reply(&Ok(removed), &"a@x.com".to_owned());
    assert_eq!(reply.status, 200);
    assert!(reply.success);
    assert_eq!(reply.message, "Unsubscribed successfully");
    assert_eq!(reply.data.expect("a removal echoes the email").email, "a@x.com");

    let listing = list_reply(Ok(s.list_emails()));
    assert_eq!(listing.data.emails, Vec::<String>::new());
}

#[test]
fn unsubscribe_of_never_subscribed_email_is_not_found() {
    let mut s = SubscriberStore::new();
    s.ensure_schema();
    let removed = s.delete_by_email(&"never@x.com".to_owned());
    let reply = unsubscribe_reply(&Ok(removed), &"never@x.com".to_owned());
    assert_eq!(reply.status, 404);
    assert!(!reply.success);
    assert_eq!(reply.message, "Email not found");
    assert!(reply.data.is_none());
}

#[test]
fn subscribe_reply_for_a_failed_store_is_a_server_error() {
    let reply = subscribe_reply(&SubscribeOutcome::FailedStore, &"a@x.com".to_owned());
    assert_eq!(reply.status, 500);
    assert!(!reply.success);
    assert_eq!(reply.message, "Failed to subscribe");
    assert!(reply.data.is_none());
}

#[test]
fn subscribe_reply_notes_a_failed_welcome_mail_but_stays_created() {
    let reply = subscribe_reply(&SubscribeOutcome::SubscribedNotifyFailed, &"a@x.com".to_owned());
    assert_eq!(reply.status, 201);
    assert!(reply.success);
    assert_eq!(reply.message, "Subscription successful, but the welcome email could not be sent");
    assert_eq!(reply.data.expect("the subscription stands").email, "a@x.com");
}

#[test]
fn unsubscribe_reply_for_an_unreachable_store_is_a_server_error() {
    let reply = unsubscribe_reply(&Err(StoreError::Unavailable), &"a@x.com".to_owned());
    assert_eq!(reply.status, 500);
    assert!(!reply.success);
    assert_eq!(reply.message, "Failed to unsubscribe");
    assert!(reply.data.is_none());
}

#[test]
fn list_reply_for_an_unreachable_store_is_a_server_error_with_an_empty_list() {
    let listing = list_reply(Err(StoreError::Unavailable));
    assert_eq!(listing.status, 500);
    assert!(!listing.success);
    assert_eq!(listing.message, "Failed to fetch subscribers");
    assert_eq!(listing.data.emails, Vec::<String>::new());
}
