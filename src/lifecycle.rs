use vstd::prelude::*;

use crate::error::StartupError;
use crate::process::ProcessRef;
use crate::tag::Tag;

verus! {

/// The capabilities a unit's type provides: how to build its state, how to
/// react to one-way messages, requests and link traps, and how to shut down.
pub trait AbstractProcess: Sized {
    type Arg;
    type Error;
    type Message;
    type Request;
    type Response;

    /// Builds the unit's state from its own handle and the start argument.
    fn init(this: ProcessRef, arg: Self::Arg) -> Result<Self, Self::Error>;

    /// Runs once when the unit stops after a successful initialization.
    fn terminate(self);

    /// Reacts to a linked unit failing; `tag` names the link that fired.
    fn handle_link_trapped(&self, tag: Tag);

    /// Reacts to a one-way message.
    fn handle_message(&mut self, message: Self::Message);

    /// Answers a request.
    fn handle_request(&mut self, request: Self::Request) -> Self::Response;
}

/// How a unit's initialization ended: with a state, with an error of its
/// own, or by aborting abnormally (caught at the initialization boundary).
#[derive(Debug)]
pub enum InitOutcome<S, E> {
    Ready(S),
    Failed(E),
    Panicked,
}

/// The reply a unit sends on the handshake tag for an initialization outcome.
pub open spec fn init_reply<S, E>(outcome: InitOutcome<S, E>) -> Result<(), StartupError<E>> {
    match outcome {
        InitOutcome::Ready(_) => Ok(()),
        InitOutcome::Failed(e) => Err(StartupError::Custom(e)),
        InitOutcome::Panicked => Err(StartupError::InitPanicked),
    }
}

/// One item taken from a ready unit's mailbox.
#[derive(Debug)]
pub enum Item<M, Q> {
    Message(M),
    Request(Q),
    LinkTrapped(Tag),
}

/// A unit whose initialization succeeded and that is dispatching its
/// mailbox. No value of this type exists for a unit whose initialization
/// failed or panicked.
#[derive(Debug)]
pub struct Unit<T> {
    state: T,
}

impl<T: AbstractProcess> Unit<T> {
    /// The unit's current state.
    pub closed spec fn state_spec(&self) -> T {
        self.state
    }

    /// The first step inside a new unit: turns the initialization outcome
    /// into the reply for the parent, and into a dispatching unit only when
    /// initialization produced a state.
    pub fn entry(outcome: InitOutcome<T, T::Error>) -> (r: (
        Option<Unit<T>>,
        Result<(), StartupError<T::Error>>,
    ))
        ensures
            r.1 == init_reply(outcome),
            match outcome {
                InitOutcome::Ready(s) => r.0 matches Some(u) && u.state_spec() == s,
                _ => r.0 is None,
            },
    {
        match outcome {
            InitOutcome::Ready(s) => (Some(Unit { state: s }), Ok(())),
            InitOutcome::Failed(e) => (None, Err(StartupError::Custom(e))),
            InitOutcome::Panicked => (None, Err(StartupError::InitPanicked)),
        }
    }

    /// Dispatches one mailbox item to the matching handler; a request gets
    /// the handler's response back, to be sent to the requester.
    pub fn dispatch(&mut self, item: Item<T::Message, T::Request>) -> (r: Option<T::Response>)
        ensures
            r is Some <==> item is Request,
    {
        match item {
            Item::Message(m) => {
                self.state.handle_message(m);
                None
            },
            Item::Request(q) => Some(self.state.handle_request(q)),
            Item::LinkTrapped(tag) => {
                self.state.handle_link_trapped(tag);
                None
            },
        }
    }

    /// Stops the unit, running its termination hook; the unit is consumed,
    /// so the hook runs exactly once.
    pub fn stop(self) {
        self.state.terminate();
    }
}

} // verus!
