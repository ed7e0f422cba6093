use crate::account::AccountId;
use crate::contract::{balance_of, new_state, pause_state, set_balance_state, FlipperView};
use vstd::prelude::*;

verus! {

/// A fresh deployment reports exactly the initial flag it was given.
pub proof fn lemma_new_reports_initial_flag(caller: AccountId, init_value: bool)
    ensures
        new_state(caller, init_value).is_paused == init_value,
{
}

/// Toggling is an involution: two toggles restore the whole state, the
/// flag included.
pub proof fn lemma_pause_involution(s: FlipperView)
    ensures
        pause_state(pause_state(s)) == s,
{
}

/// A fresh deployment's ledger holds no identity at all: every balance
/// query is answered with absence.
pub proof fn lemma_fresh_balance_absent(caller: AccountId, init_value: bool, addr: AccountId)
    ensures
        balance_of(new_state(caller, init_value), addr) == None::<u128>,
{
}

/// Overwrite semantics: a second write by the same caller replaces the
/// first amount outright; the two are never combined.
pub proof fn lemma_set_balance_overwrites(
    s: FlipperView,
    caller: AccountId,
    first: u128,
    second: u128,
)
    ensures
        balance_of(
            set_balance_state(set_balance_state(s, caller, first), caller, second),
            caller,
        ) == Some(second),
{
}

/// Isolation: a caller's write never changes what any other identity's
/// balance query answers.
pub proof fn lemma_set_balance_isolation(
    s: FlipperView,
    caller: AccountId,
    bal: u128,
    other: AccountId,
)
    requires
        other != caller,
    ensures
        balance_of(set_balance_state(s, caller, bal), other) == balance_of(s, other),
{
}

/// The toggle never touches the ledger: every balance reads the same
/// after it.
pub proof fn lemma_pause_preserves_balances(s: FlipperView, addr: AccountId)
    ensures
        balance_of(pause_state(s), addr) == balance_of(s, addr),
{
}

/// The recorded owner is fixed at construction: neither the toggle nor a
/// ledger write moves it.
pub proof fn lemma_owner_immutable(s: FlipperView, caller: AccountId, bal: u128)
    ensures
        pause_state(s).owner_address == s.owner_address,
        set_balance_state(s, caller, bal).owner_address == s.owner_address,
{
}

} // verus!
