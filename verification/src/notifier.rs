//! The notifier's share of the workflow that can be pinned down: assembling
//! the single welcome message owed per successful subscription. The send
//! itself is one synchronous best-effort attempt by an outbound mail
//! transport; its reply reaches the workflow as an event (`notify_step`).
use vstd::prelude::*;

verus! {

/// A transient outbound mail message: assembled per request, never stored, and
/// existing only for the duration of one send attempt.
pub struct OutboundMessage {
    pub to: String,
    pub subject: String,
    pub body: String,
}

/// The subject line of the welcome message.
pub open spec fn welcome_subject() -> Seq<char> {
    "Welcome to the newsletter"@
}

/// The body of the welcome message.
pub open spec fn welcome_body() -> Seq<char> {
    "Thank you for subscribing to our newsletter."@
}

/// Assembles the welcome message owed to a freshly subscribed email.
pub fn welcome_message(email: &String) -> (m: OutboundMessage)
    ensures
        m.to@ == email@,
        m.subject@ == welcome_subject(),
        m.body@ == welcome_body(),
{
    OutboundMessage {
        to: email.clone(),
        subject: "Welcome to the newsletter".to_owned(),
        body: "Thank you for subscribing to our newsletter.".to_owned(),
    }
}

} // verus!
