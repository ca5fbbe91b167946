//! The publish endpoint's decision: accept one decoded event per request and
//! offer it to the channel, never letting consumer state fail the request.

use vstd::prelude::*;

use crate::channel::{publish_model, BroadcastChannel};
use crate::event::Event;

verus! {

/// Status the endpoint reports to the publishing client.
#[derive(Debug, PartialEq, Eq)]
pub enum PublishStatus {
    /// The payload decoded and was handed to the channel. Reported even when
    /// no subscriber is attached: publish is fire-and-forget, and "no
    /// receivers" is never an error to the caller.
    Accepted,
    /// The request body did not decode into an event; nothing reached the
    /// channel.
    BadRequest,
}

/// Handles one publish request. `payload` is the request body as the decode
/// collaborator left it: an event, or nothing when the body was malformed.
/// A decoded event always yields `Accepted`, whatever the channel's reader
/// count; a malformed body yields `BadRequest` and leaves the channel
/// untouched.
pub fn handle_publish(ch: &mut BroadcastChannel, payload: Option<Event>) -> (s: PublishStatus)
    requires
        old(ch)@.wf(),
        !old(ch)@.closed,
        old(ch)@.next() < u64::MAX,
    ensures
        payload matches Some(ev) ==> s == PublishStatus::Accepted
            && final(ch)@ == publish_model(old(ch)@, ev@).0,
        payload is None ==> s == PublishStatus::BadRequest && final(ch)@ == old(ch)@,
        final(ch)@.wf(),
{
    match payload {
        Some(ev) => {
            let _ = ch.publish(ev);
            PublishStatus::Accepted
        }
        None => PublishStatus::BadRequest,
    }
}

} // verus!
