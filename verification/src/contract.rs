use crate::account::AccountId;
use crate::host::{Env, Flipped};
use crate::ledger::Ledger;
use vstd::prelude::*;

verus! {

/// The abstract contract state: the toggle flag, the deployer recorded as
/// owner, and the balance ledger as a mathematical map.
pub struct FlipperView {
    pub is_paused: bool,
    pub owner_address: AccountId,
    pub balances: Map<AccountId, u128>,
}

/// The state a deployment by `caller` with initial flag `init_value`
/// starts in: the flag as given, the deployer as owner, the ledger empty.
pub open spec fn new_state(caller: AccountId, init_value: bool) -> FlipperView {
    FlipperView {
        is_paused: init_value,
        owner_address: caller,
        balances: Map::empty(),
    }
}

/// The state after the toggle: the flag negated, everything else kept.
pub open spec fn pause_state(s: FlipperView) -> FlipperView {
    FlipperView { is_paused: !s.is_paused, owner_address: s.owner_address, balances: s.balances }
}

/// The state after `caller` stores `bal`: that caller's own ledger entry
/// overwritten, the flag and the owner kept.
pub open spec fn set_balance_state(s: FlipperView, caller: AccountId, bal: u128) -> FlipperView {
    FlipperView {
        is_paused: s.is_paused,
        owner_address: s.owner_address,
        balances: s.balances.insert(caller, bal),
    }
}

/// The amount the ledger holds for `addr`: absent unless some caller equal
/// to `addr` has stored one.
pub open spec fn balance_of(s: FlipperView, addr: AccountId) -> Option<u128> {
    if s.balances.contains_key(addr) {
        Some(s.balances[addr])
    } else {
        None
    }
}

/// The contract's message set, specified against the abstract state.
///
/// Every message is total: the `Result` of the mutating messages is a
/// success marker kept for forward compatibility, and no message ever
/// returns its failure variant.
pub trait IFlipper {
    /// The abstract contract state the implementation currently holds.
    spec fn state(&self) -> FlipperView;

    /// Negate the flag, whoever calls; the owner and the ledger are kept.
    fn pause(&mut self) -> (r: Result<(), ()>)
        ensures
            final(self).state() == pause_state(old(self).state()),
            r is Ok,
    ;

    /// Read the flag; no state changes.
    fn is_paused(&self) -> (r: bool)
        ensures
            r == self.state().is_paused,
    ;

    /// Store `bal` under the invoking caller's own identity, overwriting
    /// any amount stored before; no other identity's entry changes.
    fn set_balance(&mut self, env: &Env, bal: u128) -> (r: Result<(), ()>)
        ensures
            final(self).state() == set_balance_state(old(self).state(), env@.caller, bal),
            r is Ok,
    ;

    /// The amount stored for `addr`, or absence when it was never written.
    /// The signature asks for exclusive access, but the state is kept.
    fn get_balance(&mut self, addr: AccountId) -> (r: Option<u128>)
        ensures
            final(self).state() == old(self).state(),
            r == balance_of(old(self).state(), addr),
    ;
}

/// The persisted contract storage: one instance per deployment.
pub struct Flipper {
    is_paused: bool,
    owner_address: AccountId,
    balances: Ledger,
}

impl View for Flipper {
    type V = FlipperView;

    closed spec fn view(&self) -> FlipperView {
        FlipperView {
            is_paused: self.is_paused,
            owner_address: self.owner_address,
            balances: self.balances@,
        }
    }
}

impl Flipper {
    /// Deploy: record the invoking caller as owner, start the flag at
    /// `init_value` and the ledger empty, and emit the one `Flipped`
    /// event of the contract's lifetime.
    pub fn new(env: &mut Env, init_value: bool) -> (r: Flipper)
        ensures
            r@ == new_state(old(env)@.caller, init_value),
            final(env)@.caller == old(env)@.caller,
            final(env)@.events == old(env)@.events.push(
                (Flipped { caller: old(env)@.caller, value: init_value }),
            ),
    {
        let caller = env.caller();
        let balances = Ledger::new();
        env.emit(Flipped { caller, value: init_value });
        Flipper { is_paused: init_value, owner_address: caller, balances }
    }

    /// Deploy with the flag down: exactly `new` with `false`.
    pub fn default_constructor(env: &mut Env) -> (r: Flipper)
        ensures
            r@ == new_state(old(env)@.caller, false),
            final(env)@.caller == old(env)@.caller,
            final(env)@.events == old(env)@.events.push(
                (Flipped { caller: old(env)@.caller, value: false }),
            ),
    {
        Flipper::new(env, false)
    }
}

impl IFlipper for Flipper {
    open spec fn state(&self) -> FlipperView {
        self.view()
    }

    fn pause(&mut self) -> (r: Result<(), ()>) {
        self.is_paused = !self.is_paused;
        Ok(())
    }

    fn is_paused(&self) -> (r: bool) {
        self.is_paused
    }

    fn set_balance(&mut self, env: &Env, bal: u128) -> (r: Result<(), ()>) {
        let caller = env.caller();
        self.balances.insert(caller, bal);
        Ok(())
    }

    fn get_balance(&mut self, addr: AccountId) -> (r: Option<u128>) {
        self.balances.get(addr)
    }
}

} // verus!
