//! Authorization-gated token administration core.
//!
//! The crate keeps a registry of managed token denominations, a whitelist of
//! addresses allowed to mint them, and a single manager address allowed to
//! alter the whitelist or hand the admin of a denomination to someone else.
//! Every operation is a pure state transition: it takes the durable state and
//! the request, and returns either the new state together with a list of
//! effect descriptions for an external ledger executor, or an error.  A host
//! shim is expected to load the state, run the transition, persist the result
//! and hand the effects on.

pub mod contract;
pub mod decimal;
pub mod error;
pub mod helpers;
pub mod laws;
pub mod model;
pub mod msg;
pub mod response;
pub mod state;
