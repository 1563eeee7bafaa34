//! Local-machine IPC message passing: a length-prefixed wire framing codec,
//! listener bind/rebind lifecycle logic that recovers from stale endpoint
//! files, and the decision logic of a sequential request/response server loop.
//!
//! The byte-level protocol and the lifecycle decisions live here, verified;
//! a host application supplies the transport (local-socket connect, bind,
//! accept, read, write) and the structured encoding of message values.

mod errors;
mod frame;
mod listener;
mod server;

pub use errors::{
    IpcClientError,
    IpcServerError,
    IpcStreamError,
    IpcStreamReadError,
    IpcStreamWriteError,
};
pub use frame::{
    decode_frame,
    decode_len,
    encode_frame,
    frame_of,
    le_bytes_of_u32,
    lemma_frame_round_trip,
    lemma_le_round_trip,
    lemma_length_prefix_fidelity,
    lemma_truncated_frame_rejected,
    parse_frame,
    u32_of_le_bytes,
};
pub use listener::{
    action_of,
    bind_action,
    bind_attempts_in_run,
    bind_step,
    bind_step_spec,
    deletions_in_run,
    is_bind_event,
    is_delete_event,
    is_final,
    lemma_final_absorbs,
    lemma_recovery_attempt_bounds,
    lemma_sibling_protection,
    lemma_stale_recovery,
    run_bind,
    BindAction,
    BindEvent,
    BindState,
};
pub use server::{accept_directive, plan_response, AcceptDirective, AcceptOutcome};
