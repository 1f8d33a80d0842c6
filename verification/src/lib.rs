//! Core of a newsletter subscription service: a subscriber store with
//! uniqueness enforcement on email, the per-request subscription workflow,
//! and the mapping from outcomes to HTTP-style replies.
pub mod email;
pub mod notifier;
pub mod reply;
pub mod store;
pub mod workflow;
