//! The per-request subscription workflow: insert first, then — only on a
//! fresh insert — a single best-effort welcome notification. Persistence is
//! the source of truth; the notification is advisory, and its failure never
//! rolls back the already-committed subscription.
use vstd::prelude::*;

use crate::store::{
    insert_conflicts, spec_insert, StoreError, StoreView, SubscriberRow, SubscriberStore,
};

verus! {

/// What the store reported for the insert step of a subscribe request.
#[derive(Clone, Copy, Debug, PartialEq, Eq, Structural)]
pub enum StoreReply {
    /// The row was durably inserted.
    Inserted,
    /// The unique constraint rejected the email: it is already subscribed.
    Duplicate,
    /// The store could not be reached or the query failed.
    Unavailable,
}

/// The terminal state of one subscribe request.
#[derive(Clone, Copy, Debug, PartialEq, Eq, Structural)]
pub enum SubscribeOutcome {
    /// The row was inserted and the welcome notification went out.
    SubscribedNotified,
    /// The row was inserted; the welcome notification failed, but the
    /// subscription stands.
    SubscribedNotifyFailed,
    /// The email was already subscribed; nothing was written.
    RejectedDuplicate,
    /// The store failed; nothing was subscribed.
    FailedStore,
}

/// Where a subscribe request stands after the store step: either the welcome
/// notification is still owed, or the request is already terminal.
#[derive(Clone, Copy, Debug, PartialEq, Eq, Structural)]
pub enum SubscribeProgress {
    /// The insert succeeded: send the welcome message next.
    NotifyNext,
    /// The request is terminal without any notification.
    Done(SubscribeOutcome),
}

/// A subscriber counts as subscribed exactly when the row was inserted,
/// whether or not the notification went out.
pub open spec fn is_subscribed(o: SubscribeOutcome) -> bool {
    o == SubscribeOutcome::SubscribedNotified || o == SubscribeOutcome::SubscribedNotifyFailed
}

/// The workflow event for an insert result: the catch side of
/// insert-and-catch, mapping each store error to its reply.
pub open spec fn spec_classify_insert(r: Result<SubscriberRow, StoreError>) -> StoreReply {
    match r {
        Ok(_) => StoreReply::Inserted,
        Err(StoreError::Conflict) => StoreReply::Duplicate,
        Err(StoreError::Unavailable) => StoreReply::Unavailable,
    }
}

/// Maps an insert result to the workflow's store reply.
pub fn classify_insert(r: &Result<SubscriberRow, StoreError>) -> (reply: StoreReply)
    ensures
        reply == spec_classify_insert(*r),
{
    match r {
        Ok(_) => StoreReply::Inserted,
        Err(StoreError::Conflict) => StoreReply::Duplicate,
        Err(StoreError::Unavailable) => StoreReply::Unavailable,
    }
}

/// The step the workflow takes once the store replied: a fresh insert owes the
/// welcome notification; a duplicate or an unreachable store is terminal.
pub open spec fn spec_store_step(reply: StoreReply) -> SubscribeProgress {
    match reply {
        StoreReply::Inserted => SubscribeProgress::NotifyNext,
        StoreReply::Duplicate => SubscribeProgress::Done(SubscribeOutcome::RejectedDuplicate),
        StoreReply::Unavailable => SubscribeProgress::Done(SubscribeOutcome::FailedStore),
    }
}

/// Decides, from the store's reply alone, whether the welcome notification is
/// owed next or the request is already terminal.
pub fn store_step(reply: &StoreReply) -> (next: SubscribeProgress)
    ensures
        next == spec_store_step(*reply),
{
    match reply {
        StoreReply::Inserted => SubscribeProgress::NotifyNext,
        StoreReply::Duplicate => SubscribeProgress::Done(SubscribeOutcome::RejectedDuplicate),
        StoreReply::Unavailable => SubscribeProgress::Done(SubscribeOutcome::FailedStore),
    }
}

/// The terminal outcome once the notifier replied: the subscription is already
/// committed, so either reply ends in a subscribed state.
pub open spec fn spec_notify_step(sent: bool) -> SubscribeOutcome {
    if sent {
        SubscribeOutcome::SubscribedNotified
    } else {
        SubscribeOutcome::SubscribedNotifyFailed
    }
}

/// Decides the terminal outcome from the notifier's reply to the welcome
/// send. The row is already committed and is not undone on failure.
pub fn notify_step(sent: bool) -> (o: SubscribeOutcome)
    ensures
        o == spec_notify_step(sent),
{
    if sent {
        SubscribeOutcome::SubscribedNotified
    } else {
        SubscribeOutcome::SubscribedNotifyFailed
    }
}

/// The outcome of one whole subscribe request: a duplicate is rejected;
/// otherwise the request ends subscribed, notified or not according to the
/// notifier's reply.
pub open spec fn spec_subscribe_outcome(s: StoreView, e: Seq<char>, mail_sent: bool) -> SubscribeOutcome {
    if insert_conflicts(s, e) {
        SubscribeOutcome::RejectedDuplicate
    } else {
        spec_notify_step(mail_sent)
    }
}

/// Runs one subscribe request against the store: the insert comes first, and
/// only a fresh insert owes the welcome notification, whose reply for this
/// request is `mail_sent`. The store is changed exactly as by the insert —
/// the notifier's reply never rolls it back.
pub fn handle_subscribe(
    store: &mut SubscriberStore,
    email: String,
    now: u64,
    mail_sent: bool,
) -> (o: SubscribeOutcome)
    requires
        old(store)@.wf(),
        old(store)@.schema_ready,
        old(store)@.next_id < u64::MAX,
    ensures
        final(store)@ == spec_insert(old(store)@, email@, now),
        final(store)@.wf(),
        o == spec_subscribe_outcome(old(store)@, email@, mail_sent),
{
    let inserted = store.insert(email, now);
    let reply = classify_insert(&inserted);
    match store_step(&reply) {
        SubscribeProgress::NotifyNext => notify_step(mail_sent),
        SubscribeProgress::Done(o) => o,
    }
}

/// Law: notification isolation. Once the insert of `e` succeeded, the request
/// ends in a subscribed state whatever the notifier replied — a failed send
/// never rolls back the row — and `e` is persisted and listed either way.
pub proof fn lemma_notification_isolation(s: StoreView, e: Seq<char>, now: u64, mail_sent: bool)
    requires
        !insert_conflicts(s, e),
    ensures
        is_subscribed(spec_subscribe_outcome(s, e, mail_sent)),
        spec_insert(s, e, now).has_email(e),
{
    crate::store::lemma_insert_unique(s, e, now, now);
}

} // verus!
