//! Per-transaction state-transition logic for a blockchain runtime: a bounded
//! per-account note counter and a flat per-extrinsic transaction-fee engine.
//!
//! The fee engine charges every extrinsic the same fixed amount, withdrawing
//! it from the payer before the extrinsic runs and settling it afterwards;
//! the note counter is a guarded, no-partial-effects state mutation under the
//! same execution contract. Balances live in a small verified ledger that
//! models the runtime's balance collaborator: a map from account to balance
//! together with a minimum-balance (existential-deposit) rule.

use vstd::prelude::*;

pub mod fixed_fee;
pub mod ledger;
pub mod notes;

verus! {

/// Opaque participant identifier, modelled as a fixed-size unsigned integer;
/// equality-comparable and totally ordered, as a storage key must be.
pub type AccountId = u64;

/// Amount of value in the smallest indivisible unit.
pub type Balance = u128;

} // verus!
