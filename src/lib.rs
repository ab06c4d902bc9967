//! Accounting engine of a lending protocol: a ledger of per-account lent and
//! borrowed positions, the conversion between the base asset and its receipt
//! asset, simple-interest accrual, and the collateral checks that gate every
//! state-changing action.
//!
//! Asset movements are performed by the caller: each action is first validated
//! (`Compound::pending_transfers`), the transfers are carried out, and the
//! handler is then called with their outcome. The ledger changes only when the
//! action is valid and every transfer succeeded.

pub mod types;
pub mod arith;
pub mod ledger;
pub mod engine;
pub mod invariants;

pub use types::{
    ActorId, Assets, CompoundAction, CompoundError, CompoundEvent, CompoundInit, Transfer,
    FACTOR_SCALE, RATE_SCALE,
};
pub use engine::{init, Compound};
pub use ledger::LedgerView;
