//! Decision logic of one subscriber session: the delivery loop that bridges
//! one reader cursor to one streaming client connection.
//!
//! The session first sends a synthetic greeting event, then repeats: receive
//! from the cursor, forward an event to the client under the fixed send
//! deadline, skip past overflow reports, and end on shutdown or on a failed
//! send. The surrounding runtime performs the sends and the waiting; the
//! choices it must make are the verified functions here.

use vstd::prelude::*;

use crate::channel::{RecvModel, RecvOutcome};
use crate::event::{Event, EventModel};

verus! {

/// The fixed deadline, in seconds, on the greeting send and on every
/// forwarded event. A send that does not complete within it ends the
/// session.
pub const SEND_TIMEOUT_SECS: u64 = 30;

/// Why a session ended.
#[derive(Debug, PartialEq, Eq)]
pub enum ExitReason {
    /// The greeting or a forwarded event did not reach the client within the
    /// fixed deadline, or the transport failed. Fatal to this session only.
    SendFailed,
    /// The channel was shut down while the session was active.
    ChannelClosed,
}

/// What the session does next after one receive call.
#[derive(Debug, PartialEq, Eq)]
pub enum SessionAction {
    /// Forward this event to the client, bounded by the send deadline.
    Forward(Event),
    /// Report this many skipped events, forward nothing, and receive again
    /// at once: overflow is non-fatal and the cursor stays usable.
    ReportSkip(u64),
    /// Nothing to read yet: wait until an event is published, then receive
    /// again.
    Wait,
    /// End the session for the given reason.
    End(ExitReason),
}

/// Mathematical model of a [`SessionAction`].
#[verifier::ext_equal]
pub enum ActionModel {
    Forward(EventModel),
    ReportSkip(int),
    Wait,
    End(ExitReason),
}

impl View for SessionAction {
    type V = ActionModel;

    open spec fn view(&self) -> ActionModel {
        match self {
            SessionAction::Forward(e) => ActionModel::Forward(e@),
            SessionAction::ReportSkip(n) => ActionModel::ReportSkip(*n as int),
            SessionAction::Wait => ActionModel::Wait,
            SessionAction::End(r) => ActionModel::End(*r),
        }
    }
}

/// The action a session takes for each receive outcome: events are
/// forwarded, overflow is reported and skipped past, and only shutdown ends
/// the session here.
pub open spec fn action_for(o: RecvModel) -> ActionModel {
    match o {
        RecvModel::Received(e) => ActionModel::Forward(e),
        RecvModel::Overflowed(n) => ActionModel::ReportSkip(n),
        RecvModel::Pending => ActionModel::Wait,
        RecvModel::Closed => ActionModel::End(ExitReason::ChannelClosed),
    }
}

/// Decides the session's next step from one receive outcome.
pub fn on_receive(outcome: RecvOutcome) -> (a: SessionAction)
    ensures
        a@ == action_for(outcome@),
{
    match outcome {
        RecvOutcome::Received(e) => SessionAction::Forward(e),
        RecvOutcome::Overflowed(n) => SessionAction::ReportSkip(n),
        RecvOutcome::Pending => SessionAction::Wait,
        RecvOutcome::Closed => SessionAction::End(ExitReason::ChannelClosed),
    }
}

/// Whether the delivery loop goes on after a send attempt.
#[derive(Debug, PartialEq, Eq)]
pub enum LoopStep {
    /// The send completed in time: keep the session running.
    Continue,
    /// The send failed or timed out: end this session. No retry; other
    /// sessions and the publisher are unaffected.
    End(ExitReason),
}

/// Decides whether the session survives a send attempt — the greeting send
/// before the loop as well as every forwarded event inside it. A send that
/// completed within the deadline continues the session; any failure is fatal
/// to this session alone.
pub fn on_send_result(sent: bool) -> (s: LoopStep)
    ensures
        sent ==> s == LoopStep::Continue,
        !sent ==> s == LoopStep::End(ExitReason::SendFailed),
{
    if sent {
        LoopStep::Continue
    } else {
        LoopStep::End(ExitReason::SendFailed)
    }
}

/// The synthetic greeting event, sent first on every subscriber connection
/// under the same deadline as any other send.
pub fn greeting() -> (e: Event)
    ensures
        e@.name == "server"@,
        e@.data == "hello"@,
{
    Event::new(String::from_str("server"), String::from_str("hello"))
}

} // verus!
