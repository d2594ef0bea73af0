use vstd::prelude::*;

use crate::process::ProcessRef;

verus! {

/// Why starting a unit did not produce a handle.
#[derive(Clone, Copy, Debug, PartialEq, Eq)]
pub enum StartupError<E> {
    /// The unit's initialization returned this error.
    Custom(E),
    /// The unit's initialization aborted abnormally.
    InitPanicked,
    /// No reply to the handshake arrived within the caller's bound.
    TimedOut,
    /// Another unit already holds the requested name.
    NameAlreadyRegistered(ProcessRef),
    /// Linking to a unit placed on another node is not supported.
    LinkAcrossNodes,
}

/// What a bounded receive on the handshake tag yielded.
#[derive(Clone, Copy, Debug, PartialEq, Eq)]
pub enum Received<M> {
    Message(M),
    TimedOut,
}

} // verus!
