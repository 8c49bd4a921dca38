//! A fungible-asset ledger with a single owner, an emergency pause switch and
//! an owner-gated code replacement.
//!
//! The ledger is an explicit state object, [`ExampleContract`]. Every
//! entrypoint is a method on it that either completes and commits its whole
//! effect, or returns an [`ExampleContractError`] and leaves the state exactly
//! as it was. What each entrypoint does is defined by the mathematical model
//! in [`model`]; the executable code is proved to follow it, and [`laws`]
//! proves what holds of the model in every reachable state.

pub mod access;
pub mod contract;
pub mod error;
pub mod identity;
pub mod laws;
pub mod ledger;
pub mod model;
pub mod pause;
pub mod sum;
pub mod upgrade;

pub use access::AccessController;
pub use contract::ExampleContract;
pub use error::ExampleContractError;
pub use identity::{AuthProof, CodeId, Identity};
pub use ledger::LedgerCore;
pub use model::Allowance;
pub use pause::PauseGate;
pub use upgrade::UpgradeManager;
