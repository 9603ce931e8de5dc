//! A trustless two-party value-exchange protocol: a depositor locks value
//! into a custody vault whose control authority is a keyless identity derived
//! from a fixed protocol seed, and a counterparty later either sees the
//! deposit refunded (cancel) or completes the exchange atomically (accept).
//!
//! The ledger executor and the token subsystem are external collaborators;
//! this crate holds the protocol's own logic: the custody records, the
//! derived-authority resolver, the constraint validator that guards every
//! mutating operation, and the lifecycle controller that moves value between
//! the parties' accounts.

pub mod accounts;
pub mod calls;
pub mod errors;
pub mod identity;
pub mod laws;
pub mod lifecycle;
pub mod records;
pub mod validator;
