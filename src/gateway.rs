use crate::error::LinkError;
use vstd::prelude::*;

verus! {

/// Deadline of every send, control message or audio frame, in milliseconds.
pub const SEND_DEADLINE_MS: u64 = 5000;

/// Deadline of the transport disconnect, in milliseconds; its expiry is
/// tolerated.
pub const DISCONNECT_DEADLINE_MS: u64 = 5000;

/// Scan window of one discovery round, in milliseconds.
pub const SCAN_WINDOW_MS: u64 = 2000;

/// Hard deadline of one discovery round, in milliseconds; its expiry ends the
/// round with what was collected.
pub const SCAN_DEADLINE_MS: u64 = 2500;

/// Service identifier that discovery filters on.
pub const SERVICE_ID: u128 = 0x04ba00a8_8f96_404c_b2fc_c2adf2ce6700;

/// Characteristic for outbound control messages.
pub const CHAR_SEND: u128 = 0x065877c5_023e_41b2_acd8_fcafaf67b846;

/// Characteristic for inbound control messages.
pub const CHAR_RECV: u128 = 0x29ac4891_00b9_42e7_9e3f_041405c743b6;

/// Characteristic for outbound audio frames.
pub const CHAR_SEND_AUDIO: u128 = 0x17112441_1236_4199_8b6b_f61722bd967e;

/// Characteristic for inbound audio frames.
pub const CHAR_RECV_AUDIO: u128 = 0x828e6e8e_bd63_42d5_ae20_324e7c9cf525;

/// Event that carries an inbound text message.
pub const EVENT_RECV: &'static str = "lora_recv";

/// Event that carries a connectivity change.
pub const EVENT_CONNECTION_UPDATE: &'static str = "lora_connection_update";

/// How a transport write under a deadline ended.
#[derive(Debug, PartialEq, Eq)]
pub enum SendOutcome {
    /// The write completed with this result before the deadline.
    Completed(Result<(), String>),
    /// The deadline passed first; the write is abandoned.
    DeadlineExpired,
}

/// The send gateway's result: a write that missed its deadline is a timeout,
/// distinct from a transport failure, which keeps its message.
pub fn send_result(outcome: SendOutcome) -> (r: Result<(), LinkError>)
    ensures
        outcome == SendOutcome::DeadlineExpired ==> r == Err::<(), LinkError>(LinkError::Timeout),
        (r is Ok <==> outcome matches SendOutcome::Completed(Ok(_))),
        (outcome matches SendOutcome::Completed(Err(m)) ==> r == Err::<(), LinkError>(
            LinkError::Transport(m),
        )),
{
    match outcome {
        SendOutcome::Completed(Ok(())) => Ok(()),
        SendOutcome::Completed(Err(m)) => Err(LinkError::Transport(m)),
        SendOutcome::DeadlineExpired => Err(LinkError::Timeout),
    }
}

} // verus!
