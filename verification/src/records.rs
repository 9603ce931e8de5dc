//! Custody records: the metadata the protocol persists per listing or offer.

use vstd::prelude::*;
use crate::identity::Identity;

verus! {

/// An advertised intent to trade. A listing records the would-be
/// depositor's identity, the account a deposit would be drawn from, and the
/// advertised amount; no value is locked and no vault exists for it.
#[derive(Clone, Copy, Debug)]
pub struct ListingAccount {
    /// The identity of the party that published the listing.
    pub initializer_key: Identity,
    /// The address of the value account the deposit would be drawn from.
    pub initializer_deposit_token_account: Identity,
    /// The advertised amount; nothing is locked for a listing.
    pub initializer_amount: u64,
}

/// A live offer: the depositor's identity, the addresses of the two value
/// accounts the exchange will touch on the depositor's side, and the two
/// agreed amounts. Each field is written exactly once, at creation, and the
/// record is destroyed by exactly one of cancel or accept.
#[derive(Clone, Copy, Debug)]
pub struct OfferAccount {
    /// The depositing party; the only identity that may cancel.
    pub offeror_key: Identity,
    /// The address of the account the deposit was drawn from; a cancelled
    /// deposit is refunded here, and the reference is re-checked on every
    /// operation so a substituted account fails closed.
    pub offeror_deposit_token_account: Identity,
    /// The address of the account that receives the acceptor's payment.
    pub offeror_receive_token_account: Identity,
    /// The quantity the offeror locked in the custody vault.
    pub offeror_amount: u64,
    /// The quantity the acceptor must deliver to fulfill the offer.
    pub acceptor_amount: u64,
}

} // verus!
