//! The boundary mapping from workflow outcomes to structured replies: each
//! outcome renders as an HTTP status code, a success flag, and a client-facing
//! message, with internal error detail kept out of the client text.
use vstd::prelude::*;

use crate::email::{EmailList, Subscriber};
use crate::store::StoreError;
use crate::workflow::{is_subscribed, SubscribeOutcome};

verus! {

/// The request succeeded.
pub const STATUS_OK: u16 = 200;

/// A new resource was created.
pub const STATUS_CREATED: u16 = 201;

/// The delete target was absent.
pub const STATUS_NOT_FOUND: u16 = 404;

/// A uniqueness violation rejected the write.
pub const STATUS_CONFLICT: u16 = 409;

/// The store failed; nothing useful can be said to the client.
pub const STATUS_SERVER_ERROR: u16 = 500;

/// One reply to a subscribe or unsubscribe request: status code, success flag,
/// client-facing message, and an echo of the affected subscriber on success.
pub struct ApiReply {
    pub status: u16,
    pub success: bool,
    pub message: String,
    pub data: Option<Subscriber>,
}

/// The reply to a listing request. A store failure yields a server error with
/// an empty list — never a partial one.
pub struct ListReply {
    pub status: u16,
    pub success: bool,
    pub message: String,
    pub data: EmailList,
}

/// The status code each subscribe outcome renders as: created while the row
/// was inserted (even unnotified), conflict on a duplicate, server error when
/// the store failed.
pub open spec fn subscribe_status(o: SubscribeOutcome) -> u16 {
    match o {
        SubscribeOutcome::SubscribedNotified => STATUS_CREATED,
        SubscribeOutcome::SubscribedNotifyFailed => STATUS_CREATED,
        SubscribeOutcome::RejectedDuplicate => STATUS_CONFLICT,
        SubscribeOutcome::FailedStore => STATUS_SERVER_ERROR,
    }
}

/// The client-facing message for each subscribe outcome.
pub open spec fn subscribe_message(o: SubscribeOutcome) -> Seq<char> {
    match o {
        SubscribeOutcome::SubscribedNotified => "Subscription successful"@,
        SubscribeOutcome::SubscribedNotifyFailed => "Subscription successful, but the welcome email could not be sent"@,
        SubscribeOutcome::RejectedDuplicate => "Email already subscribed"@,
        SubscribeOutcome::FailedStore => "Failed to subscribe"@,
    }
}

/// Renders the terminal state of a subscribe request as a reply, echoing the
/// subscribed email on success.
pub fn subscribe_reply(outcome: &SubscribeOutcome, email: &String) -> (r: ApiReply)
    ensures
        r.status == subscribe_status(*outcome),
        r.success == is_subscribed(*outcome),
        r.message@ == subscribe_message(*outcome),
        r.data is Some <==> is_subscribed(*outcome),
        r.data matches Some(s) ==> s@ == email@,
{
    match outcome {
        SubscribeOutcome::SubscribedNotified => ApiReply {
            status: STATUS_CREATED,
            success: true,
            message: "Subscription successful".to_owned(),
            data: Some(Subscriber { email: email.clone() }),
        },
        SubscribeOutcome::SubscribedNotifyFailed => ApiReply {
            status: STATUS_CREATED,
            success: true,
            message: "Subscription successful, but the welcome email could not be sent".to_owned(),
            data: Some(Subscriber { email: email.clone() }),
        },
        SubscribeOutcome::RejectedDuplicate => ApiReply {
            status: STATUS_CONFLICT,
            success: false,
            message: "Email already subscribed".to_owned(),
            data: None,
        },
        SubscribeOutcome::FailedStore => ApiReply {
            status: STATUS_SERVER_ERROR,
            success: false,
            message: "Failed to subscribe".to_owned(),
            data: None,
        },
    }
}

/// Whether an unsubscribe request actually removed a row.
pub open spec fn unsubscribe_removed(r: Result<bool, StoreError>) -> bool {
    r == Ok::<bool, StoreError>(true)
}

/// The status code an unsubscribe result renders as: ok on a removal, not
/// found when no row matched, server error when the store failed.
pub open spec fn unsubscribe_status(r: Result<bool, StoreError>) -> u16 {
    match r {
        Ok(true) => STATUS_OK,
        Ok(false) => STATUS_NOT_FOUND,
        Err(_) => STATUS_SERVER_ERROR,
    }
}

/// The client-facing message for each unsubscribe result.
pub open spec fn unsubscribe_message(r: Result<bool, StoreError>) -> Seq<char> {
    match r {
        Ok(true) => "Unsubscribed successfully"@,
        Ok(false) => "Email not found"@,
        Err(_) => "Failed to unsubscribe"@,
    }
}

/// Renders the result of an unsubscribe request as a reply: a missing match is
/// a normal not-found outcome, never an error.
pub fn unsubscribe_reply(deleted: &Result<bool, StoreError>, email: &String) -> (r: ApiReply)
    ensures
        r.status == unsubscribe_status(*deleted),
        r.success == unsubscribe_removed(*deleted),
        r.message@ == unsubscribe_message(*deleted),
        r.data is Some <==> unsubscribe_removed(*deleted),
        r.data matches Some(s) ==> s@ == email@,
{
    match deleted {
        Ok(true) => ApiReply {
            status: STATUS_OK,
            success: true,
            message: "Unsubscribed successfully".to_owned(),
            data: Some(Subscriber { email: email.clone() }),
        },
        Ok(false) => ApiReply {
            status: STATUS_NOT_FOUND,
            success: false,
            message: "Email not found".to_owned(),
            data: None,
        },
        Err(_) => ApiReply {
            status: STATUS_SERVER_ERROR,
            success: false,
            message: "Failed to unsubscribe".to_owned(),
            data: None,
        },
    }
}

/// Renders the result of a listing request: the fetched emails on success; a
/// server error carries an empty list, never a partial one.
pub fn list_reply(fetched: Result<Vec<String>, StoreError>) -> (r: ListReply)
    ensures
        fetched matches Ok(emails) ==> r.status == STATUS_OK && r.success && r.data.emails
            == emails && r.message@ == "Subscribers retrieved successfully"@,
        fetched is Err ==> r.status == STATUS_SERVER_ERROR && !r.success && r.data@.len() == 0
            && r.message@ == "Failed to fetch subscribers"@,
{
    match fetched {
        Ok(emails) => ListReply {
            status: STATUS_OK,
            success: true,
            message: "Subscribers retrieved successfully".to_owned(),
            data: EmailList { emails },
        },
        Err(_) => ListReply {
            status: STATUS_SERVER_ERROR,
            success: false,
            message: "Failed to fetch subscribers".to_owned(),
            data: EmailList { emails: Vec::new() },
        },
    }
}

} // verus!
