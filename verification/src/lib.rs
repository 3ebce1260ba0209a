//! Authorization and audit core for interactions between a platform and its
//! anchors: a replay-guarded attestation ledger, a session-scoped audit trail,
//! a quote registry with best-rate selection, a credential policy engine and
//! the builder of rate-locked transaction intents.
//!
//! Every operation works on an [`Env`], the hosting environment as this
//! library sees it: a keyed store, the current time, the current sequence
//! number, the proofs of identity that it holds for the call at hand, and
//! the notices that wait to be published. A host reads its own storage into
//! an `Env`, lets an operation decide, writes back what changed and
//! publishes the notices; it discards the effects of a call that failed.

pub mod contract;
pub mod credentials;
pub mod errors;
pub mod laws;
pub mod storage;
pub mod table;
pub mod types;

pub use contract::AnchorKitContract;
pub use errors::Error;
pub use storage::{Env, Ledger, Storage};
