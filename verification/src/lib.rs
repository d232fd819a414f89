//! Custodial treasury and revenue-split settlement engine.
//!
//! Four deployable contract roles share one design: a singleton-initialized,
//! admin-gated state machine that wraps an external fungible-token ledger.
//! Each operation validates its inputs, checks authorization against the
//! stored identities, and on success returns the exact batch of token-ledger
//! instructions (and audit events) for the host to execute atomically.
//! The engine itself never touches balances.

pub mod credit;
pub mod errors;
pub mod ledger;
pub mod principal;
pub mod revenue;
pub mod settlement;
pub mod split;
pub mod state;
pub mod treasury;
