use crate::account::AccountId;
use vstd::prelude::*;

verus! {

/// The one kind of event this contract ever produces, recorded at
/// construction time: who deployed the contract and which initial flag
/// value they chose.
#[derive(Clone, Copy, PartialEq, Eq, Structural, Debug)]
pub struct Flipped {
    pub caller: AccountId,
    pub value: bool,
}

/// The abstract state of the host environment: the identity on whose
/// behalf the next invocation runs, and the event history in emission
/// order.
pub struct EnvView {
    pub caller: AccountId,
    pub events: Seq<Flipped>,
}

/// The host execution environment's ambient context, passed explicitly
/// into every operation that reads the caller identity or emits an event.
///
/// A real host supplies the caller and records events itself; modelling
/// that context as a value makes each operation's use of it part of the
/// operation's contract.
pub struct Env {
    caller: AccountId,
    events: Vec<Flipped>,
}

impl View for Env {
    type V = EnvView;

    closed spec fn view(&self) -> EnvView {
        EnvView { caller: self.caller, events: self.events@ }
    }
}

impl Env {
    /// A fresh environment: `caller` invokes, and nothing has been emitted.
    pub fn new(caller: AccountId) -> (r: Env)
        ensures
            r@.caller == caller,
            r@.events == Seq::<Flipped>::empty(),
    {
        Env { caller, events: Vec::new() }
    }

    /// The identity on whose behalf the current invocation runs.
    pub fn caller(&self) -> (r: AccountId)
        ensures
            r == self@.caller,
    {
        self.caller
    }

    /// Let the following invocations run on behalf of `caller`.
    pub fn set_caller(&mut self, caller: AccountId)
        ensures
            final(self)@.caller == caller,
            final(self)@.events == old(self)@.events,
    {
        self.caller = caller;
    }

    /// Append `event` to the host-visible history.
    pub fn emit(&mut self, event: Flipped)
        ensures
            final(self)@.caller == old(self)@.caller,
            final(self)@.events == old(self)@.events.push(event),
    {
        self.events.push(event);
    }

    /// The events emitted so far, oldest first.
    pub fn events(&self) -> (r: &Vec<Flipped>)
        ensures
            r@ == self@.events,
    {
        &self.events
    }
}

} // verus!
