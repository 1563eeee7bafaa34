//! Decisions of the request/response server loop. The host application runs
//! the loop on one dedicated thread: it accepts connections, reads and writes
//! frames, and invokes the user handler; what to do with each accept outcome
//! and which bytes (if any) to write back are decided here.
//!
//! The loop handles one connection at a time, sequentially. An accept failure
//! is never fatal: it is routed to the optional error handler when one is
//! present, otherwise dropped, and the loop keeps accepting either way.

use vstd::prelude::*;
use crate::frame::frame_of;
use crate::frame::encode_frame;

verus! {

/// The outcome of one accept call, as the host reports it.
#[derive(Clone, Copy, Debug, PartialEq, Eq, Structural)]
pub enum AcceptOutcome {
    /// A connection was accepted.
    Connection,
    /// The accept call failed.
    Failure,
}

/// What the loop does with one accept outcome before accepting again.
#[derive(Clone, Copy, Debug, PartialEq, Eq, Structural)]
pub enum AcceptDirective {
    /// Hand the connection to the per-connection handler.
    HandleConnection,
    /// Report the accept error to the caller-supplied error handler.
    ReportError,
    /// Drop the accept error: no error handler was supplied.
    DropError,
}

/// Decide what the accept loop does with one accept outcome. Every outcome
/// yields a directive — none stops the loop — and an accept error reaches the
/// error handler exactly when the caller supplied one.
pub fn accept_directive(outcome: AcceptOutcome, has_error_handler: bool) -> (d: AcceptDirective)
    ensures
        d == AcceptDirective::HandleConnection <==> outcome == AcceptOutcome::Connection,
        d == AcceptDirective::ReportError <==> (outcome == AcceptOutcome::Failure
            && has_error_handler),
        d == AcceptDirective::DropError <==> (outcome == AcceptOutcome::Failure
            && !has_error_handler),
{
    match outcome {
        AcceptOutcome::Connection => AcceptDirective::HandleConnection,
        AcceptOutcome::Failure => if has_error_handler {
            AcceptDirective::ReportError
        } else {
            AcceptDirective::DropError
        },
    }
}

/// Decide what one handled connection writes back. A handler that returned a
/// response payload has it framed and written; a handler that returned none
/// has nothing written, and the connection simply closes.
pub fn plan_response(response_payload: Option<Vec<u8>>) -> (reply: Option<Vec<u8>>)
    requires
        (response_payload matches Some(p) ==> p@.len() <= u32::MAX),
    ensures
        response_payload is None <==> reply is None,
        (response_payload matches Some(p) ==> (reply matches Some(f) && f@ == frame_of(p@))),
{
    match response_payload {
        Some(p) => Some(encode_frame(&p)),
        None => None,
    }
}

} // verus!
