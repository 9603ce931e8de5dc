//! The lifecycle controller: Create -> { Cancel | Accept } -> Closed.
//!
//! Each operation takes the bundle of accounts the ledger handed it, with
//! every caller-held signature already verified by the executor, runs the
//! constraint validator, and only when every check passes mutates the
//! bundle — so a rejected operation has zero observable effect, matching
//! the host's all-or-nothing execution of a unit that aborts.

use vstd::prelude::*;
use vstd::pervasive::unreached;
use crate::accounts::{ValueAccount, balance_of};
use crate::calls::{CloseCall, SetAuthorityCall, TransferCall};
use crate::errors::EscrowError;
use crate::identity::{Identity, vault_authority, vault_authority_id};
use crate::records::{ListingAccount, OfferAccount};
use crate::validator::{
    accept_verdict, cancel_verdict, check_accept, check_cancel, check_listing, check_offer,
    listing_verdict, offer_verdict,
};

verus! {

/// The accounts a listing creation touches: the publishing party, the
/// account a deposit would be drawn from, and the freshly allocated record
/// slot (`None` while empty).
#[derive(Clone, Copy, Debug)]
pub struct InitializeListing {
    /// The authenticated signer of the creation.
    pub initializer: Identity,
    pub initializer_deposit_token_account: ValueAccount,
    pub listing_account: Option<ListingAccount>,
}

/// The accounts an offer creation touches. The vault arrives freshly
/// created by the executor — empty, and controlled by the offeror until the
/// operation hands control to the derived authority.
#[derive(Clone, Copy, Debug)]
pub struct OfferEscrow {
    /// The authenticated signer of the creation.
    pub offeror: Identity,
    pub offer_vault_account: ValueAccount,
    pub offeror_deposit_token_account: ValueAccount,
    pub offeror_receive_token_account: ValueAccount,
    pub offer_account: Option<OfferAccount>,
}

/// The accounts a cancellation touches. The vault and the record are
/// `Option`s because a consumed offer no longer has either.
#[derive(Clone, Copy, Debug)]
pub struct CancelOffer {
    /// The authenticated signer of the cancellation.
    pub offeror: Identity,
    pub offer_vault_account: Option<ValueAccount>,
    /// The authority account the caller supplied for the vault's outgoing
    /// transfer; validated against the derived authority.
    pub offer_vault_authority: Identity,
    pub offeror_deposit_token_account: ValueAccount,
    pub offer_account: Option<OfferAccount>,
}

/// The accounts an acceptance touches, on both sides of the exchange.
#[derive(Clone, Copy, Debug)]
pub struct AcceptOffer {
    /// The authenticated signer of the acceptance.
    pub acceptor: Identity,
    pub acceptor_deposit_token_account: ValueAccount,
    pub acceptor_receive_token_account: ValueAccount,
    pub offeror_deposit_token_account: ValueAccount,
    pub offeror_receive_token_account: ValueAccount,
    /// The identity recorded as the offer's owner; the record is checked
    /// against it before anything moves.
    pub offeror: Identity,
    pub offer_account: Option<OfferAccount>,
    pub offer_vault_account: Option<ValueAccount>,
    /// The authority account the caller supplied for the vault's outgoing
    /// transfer; validated against the derived authority.
    pub offer_vault_authority: Identity,
}

/// The record a listing creation persists: exactly the supplied inputs.
pub open spec fn created_listing_record(b: InitializeListing, initializer_amount: u64) -> ListingAccount {
    ListingAccount {
        initializer_key: b.initializer,
        initializer_deposit_token_account: b.initializer_deposit_token_account.address,
        initializer_amount,
    }
}

/// The record an offer creation persists: exactly the supplied inputs,
/// with the account references captured at creation time.
pub open spec fn created_offer_record(
    b: OfferEscrow,
    offeror_amount: u64,
    acceptor_amount: u64,
) -> OfferAccount {
    OfferAccount {
        offeror_key: b.offeror,
        offeror_deposit_token_account: b.offeror_deposit_token_account.address,
        offeror_receive_token_account: b.offeror_receive_token_account.address,
        offeror_amount,
        acceptor_amount,
    }
}

/// Persist a listing: metadata only, no value moves and no vault exists.
///
/// The executor has already verified `initializer`'s signature. On success
/// the record holds exactly the supplied inputs; on any failure nothing
/// changes.
pub fn initialize_listing(b: &mut InitializeListing, initializer_amount: u64) -> (r: Result<
    (),
    EscrowError,
>)
    ensures
        r == listing_verdict(*old(b), initializer_amount),
        r is Err ==> *final(b) == *old(b),
        r is Ok ==> final(b).listing_account == Some(
            created_listing_record(*old(b), initializer_amount),
        ),
        final(b).initializer == old(b).initializer,
        final(b).initializer_deposit_token_account == old(b).initializer_deposit_token_account,
{
    match check_listing(b, initializer_amount) {
        Err(e) => Err(e),
        Ok(()) => {
            b.listing_account = Some(
                ListingAccount {
                    initializer_key: b.initializer,
                    initializer_deposit_token_account: b.initializer_deposit_token_account.address,
                    initializer_amount,
                },
            );
            Ok(())
        },
    }
}

/// Create an offer: persist the custody record, hand the fresh vault to
/// the derived authority, and move the locked amount from the offeror's
/// deposit account into the vault.
///
/// The executor has already verified `offeror`'s signature and created the
/// vault empty under the offeror's control. On success the vault holds
/// exactly `offeror_amount` under the derived authority and the record
/// holds exactly the supplied inputs; on any failure nothing changes. The
/// total value across the deposit account and the vault is conserved.
pub fn initialize_offer(
    b: &mut OfferEscrow,
    program_id: &Identity,
    offeror_amount: u64,
    acceptor_amount: u64,
) -> (r: Result<(), EscrowError>)
    ensures
        r == offer_verdict(*old(b), *program_id, offeror_amount),
        r is Err ==> *final(b) == *old(b),
        r is Ok ==> ({
            &&& final(b).offer_account == Some(
                created_offer_record(*old(b), offeror_amount, acceptor_amount),
            )
            &&& final(b).offer_vault_account.balance == offeror_amount
            &&& final(b).offer_vault_account.authority@ == vault_authority_id(program_id@)
            &&& final(b).offer_vault_account.address == old(b).offer_vault_account.address
            &&& final(b).offeror_deposit_token_account.balance == old(
                b,
            ).offeror_deposit_token_account.balance - offeror_amount
            &&& final(b).offeror_deposit_token_account.address == old(
                b,
            ).offeror_deposit_token_account.address
            &&& final(b).offeror_deposit_token_account.authority == old(
                b,
            ).offeror_deposit_token_account.authority
        }),
        final(b).offeror == old(b).offeror,
        final(b).offeror_receive_token_account == old(b).offeror_receive_token_account,
        final(b).offeror_deposit_token_account.balance + final(b).offer_vault_account.balance
            == old(b).offeror_deposit_token_account.balance + old(b).offer_vault_account.balance,
{
    match check_offer(b, program_id, offeror_amount) {
        Err(e) => {
            return Err(e);
        },
        Ok(()) => {},
    }
    let authority = match vault_authority(program_id) {
        None => unreached(),
        Some(p) => p.0,
    };
    b.offer_account = Some(
        OfferAccount {
            offeror_key: b.offeror,
            offeror_deposit_token_account: b.offeror_deposit_token_account.address,
            offeror_receive_token_account: b.offeror_receive_token_account.address,
            offeror_amount,
            acceptor_amount,
        },
    );
    b.offer_vault_account.authority = authority;
    b.offer_vault_account.balance = b.offer_vault_account.balance + offeror_amount;
    b.offeror_deposit_token_account.balance = b.offeror_deposit_token_account.balance
        - offeror_amount;
    Ok(())
}

/// Cancel an offer: under the derived authority's proof — never the
/// caller's — refund exactly the locked amount from the vault to the
/// deposit account captured at creation, close the emptied vault, and
/// destroy the record.
///
/// The executor has already verified `offeror`'s signature. On any failure
/// nothing changes. The total value across the deposit account and the
/// vault is conserved.
pub fn cancel_offer(b: &mut CancelOffer, program_id: &Identity) -> (r: Result<(), EscrowError>)
    ensures
        r == cancel_verdict(*old(b), *program_id),
        r is Err ==> *final(b) == *old(b),
        r is Ok ==> ({
            &&& final(b).offer_account is None
            &&& final(b).offer_vault_account is None
            &&& final(b).offeror_deposit_token_account.balance == old(
                b,
            ).offeror_deposit_token_account.balance + (old(b).offer_account->0).offeror_amount
            &&& final(b).offeror_deposit_token_account.address == old(
                b,
            ).offeror_deposit_token_account.address
            &&& final(b).offeror_deposit_token_account.authority == old(
                b,
            ).offeror_deposit_token_account.authority
        }),
        final(b).offeror == old(b).offeror,
        final(b).offer_vault_authority == old(b).offer_vault_authority,
        final(b).offeror_deposit_token_account.balance + balance_of(final(b).offer_vault_account)
            == old(b).offeror_deposit_token_account.balance + balance_of(
            old(b).offer_vault_account,
        ),
{
    match check_cancel(b, program_id) {
        Err(e) => {
            return Err(e);
        },
        Ok(()) => {},
    }
    let rec = match b.offer_account {
        None => unreached(),
        Some(rec) => rec,
    };
    b.offeror_deposit_token_account.balance = b.offeror_deposit_token_account.balance
        + rec.offeror_amount;
    b.offer_vault_account = None;
    b.offer_account = None;
    Ok(())
}

/// Accept an offer: the acceptor pays exactly the owed amount to the
/// offeror's receive account, the vault releases exactly the locked amount
/// to the acceptor's receive account under the derived authority's proof,
/// the emptied vault is closed and the record destroyed — one atomic unit,
/// so no state with only one leg applied is ever observable.
///
/// The executor has already verified `acceptor`'s signature. On any
/// failure nothing changes. The total value across the four party accounts
/// and the vault is conserved.
pub fn accept_offer(b: &mut AcceptOffer, program_id: &Identity) -> (r: Result<(), EscrowError>)
    ensures
        r == accept_verdict(*old(b), *program_id),
        r is Err ==> *final(b) == *old(b),
        r is Ok ==> ({
            let rec = old(b).offer_account->0;
            &&& final(b).offer_account is None
            &&& final(b).offer_vault_account is None
            &&& final(b).acceptor_deposit_token_account.balance == old(
                b,
            ).acceptor_deposit_token_account.balance - rec.acceptor_amount
            &&& final(b).offeror_receive_token_account.balance == old(
                b,
            ).offeror_receive_token_account.balance + rec.acceptor_amount
            &&& final(b).acceptor_receive_token_account.balance == old(
                b,
            ).acceptor_receive_token_account.balance + rec.offeror_amount
            &&& final(b).acceptor_deposit_token_account.address == old(
                b,
            ).acceptor_deposit_token_account.address
            &&& final(b).acceptor_deposit_token_account.authority == old(
                b,
            ).acceptor_deposit_token_account.authority
            &&& final(b).offeror_receive_token_account.address == old(
                b,
            ).offeror_receive_token_account.address
            &&& final(b).offeror_receive_token_account.authority == old(
                b,
            ).offeror_receive_token_account.authority
            &&& final(b).acceptor_receive_token_account.address == old(
                b,
            ).acceptor_receive_token_account.address
            &&& final(b).acceptor_receive_token_account.authority == old(
                b,
            ).acceptor_receive_token_account.authority
        }),
        final(b).offeror_deposit_token_account == old(b).offeror_deposit_token_account,
        final(b).offeror == old(b).offeror,
        final(b).acceptor == old(b).acceptor,
        final(b).offer_vault_authority == old(b).offer_vault_authority,
        final(b).acceptor_deposit_token_account.balance
            + final(b).acceptor_receive_token_account.balance
            + final(b).offeror_deposit_token_account.balance
            + final(b).offeror_receive_token_account.balance + balance_of(
            final(b).offer_vault_account,
        ) == old(b).acceptor_deposit_token_account.balance
            + old(b).acceptor_receive_token_account.balance
            + old(b).offeror_deposit_token_account.balance
            + old(b).offeror_receive_token_account.balance + balance_of(
            old(b).offer_vault_account,
        ),
{
    match check_accept(b, program_id) {
        Err(e) => {
            return Err(e);
        },
        Ok(()) => {},
    }
    let rec = match b.offer_account {
        None => unreached(),
        Some(rec) => rec,
    };
    b.acceptor_deposit_token_account.balance = b.acceptor_deposit_token_account.balance
        - rec.acceptor_amount;
    b.offeror_receive_token_account.balance = b.offeror_receive_token_account.balance
        + rec.acceptor_amount;
    b.acceptor_receive_token_account.balance = b.acceptor_receive_token_account.balance
        + rec.offeror_amount;
    b.offer_vault_account = None;
    b.offer_account = None;
    Ok(())
}

impl OfferEscrow {
    /// The reassignment that hands the fresh vault to the derived authority.
    pub fn into_set_authority_context(&self) -> (c: SetAuthorityCall)
        ensures
            c.account_or_mint@ == self.offer_vault_account.address@,
            c.current_authority@ == self.offeror@,
    {
        SetAuthorityCall {
            account_or_mint: self.offer_vault_account.address,
            current_authority: self.offeror,
        }
    }

    /// The deposit leg: the offeror moves the locked amount into the vault.
    pub fn into_transfer_to_pda_context(&self) -> (c: TransferCall)
        ensures
            c.from@ == self.offeror_deposit_token_account.address@,
            c.to@ == self.offer_vault_account.address@,
            c.authority@ == self.offeror@,
    {
        TransferCall {
            from: self.offeror_deposit_token_account.address,
            to: self.offer_vault_account.address,
            authority: self.offeror,
        }
    }
}

impl CancelOffer {
    /// The refund leg: the vault pays the deposit back, under the derived
    /// authority's proof — never the caller's.
    pub fn into_transfer_to_offeror_context(&self) -> (c: Option<TransferCall>)
        ensures
            ({
                match self.offer_vault_account {
                    Some(vault) => c matches Some(t) && t.from@ == vault.address@
                        && t.to@ == self.offeror_deposit_token_account.address@
                        && t.authority@ == self.offer_vault_authority@,
                    None => c is None,
                }
            }),
    {
        match self.offer_vault_account {
            Some(vault) => Some(
                TransferCall {
                    from: vault.address,
                    to: self.offeror_deposit_token_account.address,
                    authority: self.offer_vault_authority,
                },
            ),
            None => None,
        }
    }

    /// The closure of the emptied vault, its storage deposit refunded to
    /// the offeror.
    pub fn into_close_context(&self) -> (c: Option<CloseCall>)
        ensures
            ({
                match self.offer_vault_account {
                    Some(vault) => c matches Some(k) && k.account@ == vault.address@
                        && k.destination@ == self.offeror@
                        && k.authority@ == self.offer_vault_authority@,
                    None => c is None,
                }
            }),
    {
        match self.offer_vault_account {
            Some(vault) => Some(
                CloseCall {
                    account: vault.address,
                    destination: self.offeror,
                    authority: self.offer_vault_authority,
                },
            ),
            None => None,
        }
    }
}

impl AcceptOffer {
    /// The payment leg: the acceptor pays the owed amount to the offeror's
    /// receive account, signing for itself.
    pub fn into_transfer_to_offeror_context(&self) -> (c: TransferCall)
        ensures
            c.from@ == self.acceptor_deposit_token_account.address@,
            c.to@ == self.offeror_receive_token_account.address@,
            c.authority@ == self.acceptor@,
    {
        TransferCall {
            from: self.acceptor_deposit_token_account.address,
            to: self.offeror_receive_token_account.address,
            authority: self.acceptor,
        }
    }

    /// The release leg: the vault pays the locked deposit to the acceptor,
    /// under the derived authority's proof.
    pub fn into_transfer_to_acceptor_context(&self) -> (c: Option<TransferCall>)
        ensures
            ({
                match self.offer_vault_account {
                    Some(vault) => c matches Some(t) && t.from@ == vault.address@
                        && t.to@ == self.acceptor_receive_token_account.address@
                        && t.authority@ == self.offer_vault_authority@,
                    None => c is None,
                }
            }),
    {
        match self.offer_vault_account {
            Some(vault) => Some(
                TransferCall {
                    from: vault.address,
                    to: self.acceptor_receive_token_account.address,
                    authority: self.offer_vault_authority,
                },
            ),
            None => None,
        }
    }

    /// The closure of the emptied vault, its storage deposit refunded to
    /// the original offeror.
    pub fn into_close_context(&self) -> (c: Option<CloseCall>)
        ensures
            ({
                match self.offer_vault_account {
                    Some(vault) => c matches Some(k) && k.account@ == vault.address@
                        && k.destination@ == self.offeror@
                        && k.authority@ == self.offer_vault_authority@,
                    None => c is None,
                }
            }),
    {
        match self.offer_vault_account {
            Some(vault) => Some(
                CloseCall {
                    account: vault.address,
                    destination: self.offeror,
                    authority: self.offer_vault_authority,
                },
            ),
            None => None,
        }
    }
}

} // verus!
