//! Payload types exchanged with clients: a single subscriber identified by
//! email, and the list of all subscriber emails.
use vstd::prelude::*;

verus! {

/// A newsletter recipient, identified by a unique email address. Used both as
/// the body of a subscribe/unsubscribe request and as the echo of the affected
/// address in a reply.
#[derive(Debug)]
pub struct Subscriber {
    pub email: String,
}

/// The collection of all subscriber emails, as returned to a client listing
/// the subscribers.
#[derive(Debug)]
pub struct EmailList {
    pub emails: Vec<String>,
}

impl View for Subscriber {
    type V = Seq<char>;

    open spec fn view(&self) -> Seq<char> {
        self.email@
    }
}

impl View for EmailList {
    type V = Seq<Seq<char>>;

    open spec fn view(&self) -> Seq<Seq<char>> {
        self.emails.deep_view()
    }
}

} // verus!
