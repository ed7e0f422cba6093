//! A minimal on-chain state object: one boolean flag that any caller may
//! toggle, and a per-identity balance ledger in which each caller can
//! overwrite only its own entry.
//!
//! The host execution environment — the identity on whose behalf an
//! invocation runs and the history of emitted events — is modelled
//! explicitly by [`host::Env`] and passed into every operation that needs
//! it, so each operation's effect on the persisted state and on the event
//! history is stated in its contract and proved.

mod account;
mod contract;
mod host;
mod laws;
mod ledger;

pub use account::AccountId;
pub use contract::{balance_of, new_state, pause_state, set_balance_state};
pub use contract::{Flipper, FlipperView, IFlipper};
pub use host::{Env, EnvView, Flipped};
pub use laws::{
    lemma_fresh_balance_absent, lemma_new_reports_initial_flag, lemma_owner_immutable,
    lemma_pause_involution, lemma_pause_preserves_balances, lemma_set_balance_isolation,
    lemma_set_balance_overwrites,
};
pub use ledger::Ledger;
