//! A minimal custodial vault core.
//!
//! One vault record holds a pool of value on behalf of a designated
//! authority. Anyone may deposit into it; only the authority may withdraw
//! from it, and never below a mandatory reserve floor. A lock flag rejects
//! both operations. All state lives in the `Vault` record passed in on each
//! call; the hosting environment loads and saves it atomically around each
//! operation and authenticates callers before invoking the core.
//!
//! Every operation is a synchronous, all-or-nothing state transition: either
//! every balance mutation and the audit event happen, or the vault record,
//! the actor's external balance and the event log are left untouched and a
//! structured error says why.

pub mod account;
pub mod arith;
pub mod errors;
pub mod events;
pub mod laws;
pub mod vault;
