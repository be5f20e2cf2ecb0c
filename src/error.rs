use vstd::prelude::*;

verus! {

/// Failures that the connection manager and the send gateway report.
#[derive(Debug, PartialEq, Eq)]
pub enum LinkError {
    /// No matching peer was found after every discovery round.
    DiscoveryFailed,
    /// The transport failed; its own message is kept.
    Transport(String),
    /// The operation did not complete before its deadline.
    Timeout,
}

/// The text reported for an error.
pub open spec fn error_text(e: LinkError) -> Seq<char> {
    match e {
        LinkError::DiscoveryFailed => "lora failed to discover"@,
        LinkError::Transport(m) => m@,
        LinkError::Timeout => "lora send timeout"@,
    }
}

impl LinkError {
    /// The short descriptive string returned to the caller of a command.
    pub fn message(&self) -> (r: String)
        ensures
            r@ == error_text(*self),
    {
        match self {
            LinkError::DiscoveryFailed => "lora failed to discover".to_owned(),
            LinkError::Transport(m) => m.clone(),
            LinkError::Timeout => "lora send timeout".to_owned(),
        }
    }
}

/// A transport call's own result, with its failure kept as a transport error.
pub fn transport_result(outcome: Result<(), String>) -> (r: Result<(), LinkError>)
    ensures
        outcome is Ok <==> r is Ok,
        outcome is Err ==> r == Err::<(), LinkError>(LinkError::Transport(outcome->Err_0)),
{
    match outcome {
        Ok(()) => Ok(()),
        Err(m) => Err(LinkError::Transport(m)),
    }
}

} // verus!
