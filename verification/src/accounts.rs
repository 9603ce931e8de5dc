//! The core's picture of a value account of the external token subsystem.

use vstd::prelude::*;
use crate::identity::Identity;

verus! {

/// A fungible-value account as the core reads it: its address, the identity
/// currently authorized to move its balance, and the balance itself. Value
/// accounting lives in the external token subsystem; the core only persists
/// and checks these three facts about each account it touches.
#[derive(Clone, Copy, Debug)]
pub struct ValueAccount {
    /// The address under which the ledger stores this account.
    pub address: Identity,
    /// The identity whose proof the token subsystem demands for any
    /// transfer out of this account or for its closure.
    pub authority: Identity,
    /// The quantity of value the account holds.
    pub balance: u64,
}

/// The balance of a value account that may already have been closed; a
/// closed account holds nothing.
pub open spec fn balance_of(account: Option<ValueAccount>) -> int {
    match account {
        Some(a) => a.balance as int,
        None => 0,
    }
}

} // verus!
