//! Descriptors for the calls the core issues into the token subsystem.
//!
//! Each lifecycle operation is one atomic unit: the host executor either
//! commits every call in it or none. The core therefore validates first and
//! only then emits these descriptors; a surrounding runtime turns each into
//! the corresponding token-subsystem instruction.

use vstd::prelude::*;
use crate::identity::Identity;

verus! {

/// Move `amount` (supplied separately, always a stored amount and never a
/// caller-chosen one) from `from` to `to`, authorized by `authority`.
#[derive(Clone, Copy, Debug)]
pub struct TransferCall {
    pub from: Identity,
    pub to: Identity,
    pub authority: Identity,
}

/// Reassign control of `account_or_mint` away from `current_authority`.
#[derive(Clone, Copy, Debug)]
pub struct SetAuthorityCall {
    pub account_or_mint: Identity,
    pub current_authority: Identity,
}

/// Close `account`, refunding its storage deposit to `destination`;
/// the token subsystem refuses this while the balance is nonzero.
#[derive(Clone, Copy, Debug)]
pub struct CloseCall {
    pub account: Identity,
    pub destination: Identity,
    pub authority: Identity,
}

} // verus!
