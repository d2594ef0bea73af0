use vstd::prelude::*;

use crate::builder::AbstractProcessBuilder;
use crate::error::{Received, StartupError};
use crate::lifecycle::{init_reply, InitOutcome};
use crate::process::ProcessRef;

verus! {

/// What a start call returns once the reply on the handshake tag for the
/// spawned unit `process` has arrived.
pub open spec fn start_result<E>(process: ProcessRef, reply: Result<(), StartupError<E>>) -> Result<
    ProcessRef,
    StartupError<E>,
> {
    match reply {
        Ok(()) => Ok(process),
        Err(e) => Err(e),
    }
}

/// Turns the reply of the spawned unit `process` into the start result.
pub fn complete_start<E>(process: ProcessRef, reply: Result<(), StartupError<E>>) -> (r: Result<
    ProcessRef,
    StartupError<E>,
>)
    ensures
        r == start_result(process, reply),
{
    match reply {
        Ok(()) => Ok(process),
        Err(e) => Err(e),
    }
}

/// What a bounded start call returns for what its wait yielded.
pub open spec fn timeout_result<E>(
    process: ProcessRef,
    received: Received<Result<(), StartupError<E>>>,
) -> Result<ProcessRef, StartupError<E>> {
    match received {
        Received::Message(reply) => start_result(process, reply),
        Received::TimedOut => Err(StartupError::TimedOut),
    }
}

/// Turns what a bounded wait on the handshake tag yielded into the start
/// result: a reply is handled as by an unbounded wait, and no reply within
/// the bound is a time-out.
pub fn complete_start_timeout<E>(
    process: ProcessRef,
    received: Received<Result<(), StartupError<E>>>,
) -> (r: Result<ProcessRef, StartupError<E>>)
    ensures
        r == timeout_result(process, received),
{
    match received {
        Received::Message(reply) => complete_start(process, reply),
        Received::TimedOut => Err(StartupError::TimedOut),
    }
}

/// What a named start call yields once the name registration is decided:
/// the unit to wait on, or the error that carries the name's holder.
pub open spec fn registration_result<E>(registered: Result<ProcessRef, ProcessRef>) -> Result<
    ProcessRef,
    StartupError<E>,
> {
    match registered {
        Ok(p) => Ok(p),
        Err(holder) => Err(StartupError::NameAlreadyRegistered(holder)),
    }
}

/// Turns the outcome of a named spawn into the unit to wait on, or, when the
/// name was already held, the error that carries the holder.
pub fn complete_registration<E>(registered: Result<ProcessRef, ProcessRef>) -> (r: Result<
    ProcessRef,
    StartupError<E>,
>)
    ensures
        r == registration_result::<E>(registered),
{
    match registered {
        Ok(p) => Ok(p),
        Err(holder) => Err(StartupError::NameAlreadyRegistered(holder)),
    }
}

/// For every supported combination of options, starting succeeds, with the
/// spawned unit's handle, exactly when its initialization produced a state.
pub proof fn lemma_start_ok_iff_init_ok<'a, S, E>(
    b: AbstractProcessBuilder<'a>,
    process: ProcessRef,
    outcome: InitOutcome<S, E>,
)
    requires
        b.call_spec() is Some,
    ensures
        start_result(process, init_reply(outcome)) is Ok <==> outcome is Ready,
        start_result(process, init_reply(outcome)) is Ok ==> start_result(
            process,
            init_reply(outcome),
        ) == Ok::<ProcessRef, StartupError<E>>(process),
{
}

/// An initialization that returns an error makes starting fail with that
/// error, wrapped as a custom error.
pub proof fn lemma_start_init_failed<S, E>(process: ProcessRef, e: E)
    ensures
        start_result(process, init_reply(InitOutcome::<S, E>::Failed(e))) == Err::<
            ProcessRef,
            StartupError<E>,
        >(StartupError::Custom(e)),
{
}

/// An initialization that aborts abnormally makes starting fail with
/// `InitPanicked`.
pub proof fn lemma_start_init_panicked<S, E>(process: ProcessRef)
    ensures
        start_result(process, init_reply(InitOutcome::<S, E>::Panicked)) == Err::<
            ProcessRef,
            StartupError<E>,
        >(StartupError::InitPanicked),
{
}

/// A bounded start whose reply arrives in time returns what an unbounded
/// start returns for that reply; one whose reply does not arrive times out.
pub proof fn lemma_start_timeout_agrees<S, E>(process: ProcessRef, outcome: InitOutcome<S, E>)
    ensures
        timeout_result(process, Received::Message(init_reply(outcome))) == start_result(
            process,
            init_reply(outcome),
        ),
        timeout_result(process, Received::<Result<(), StartupError<E>>>::TimedOut) == Err::<
            ProcessRef,
            StartupError<E>,
        >(StartupError::TimedOut),
{
}

} // verus!
