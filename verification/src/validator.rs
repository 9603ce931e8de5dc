//! The constraint validator: the stateless predicate set run before every
//! mutating operation.
//!
//! Each `*_verdict` spec function is the exact decision the validator takes
//! on a bundle of accounts — success, or which violation — and each
//! `check_*` function computes it. The lifecycle controller mutates nothing
//! until the verdict is `Ok`, so a failing predicate aborts the whole
//! operation with no partial effect.

use vstd::prelude::*;
use crate::errors::EscrowError;
use crate::identity::{Identity, vault_authority, vault_authority_id, vault_authority_of};
use crate::lifecycle::{AcceptOffer, CancelOffer, InitializeListing, OfferEscrow};

verus! {

/// The validator's decision on a listing creation: the record slot must be
/// freshly allocated and empty, and the deposit account must cover the
/// advertised amount.
pub open spec fn listing_verdict(b: InitializeListing, initializer_amount: u64) -> Result<
    (),
    EscrowError,
> {
    if b.listing_account is Some {
        Err(EscrowError::AllocationFailure)
    } else if b.initializer_deposit_token_account.balance < initializer_amount {
        Err(EscrowError::PreconditionViolation)
    } else {
        Ok(())
    }
}

/// The validator's decision on an offer creation: the record slot must be
/// empty, the deposit must cover the locked amount, an authority must be
/// derivable for this program identity, the vault must arrive fresh — still
/// controlled by the offeror and holding nothing — and the offeror must
/// control the deposit account the lock is drawn from.
pub open spec fn offer_verdict(b: OfferEscrow, program_id: Identity, offeror_amount: u64) -> Result<
    (),
    EscrowError,
> {
    if b.offer_account is Some {
        Err(EscrowError::AllocationFailure)
    } else if b.offeror_deposit_token_account.balance < offeror_amount {
        Err(EscrowError::PreconditionViolation)
    } else if vault_authority_of(program_id@) is None {
        Err(EscrowError::AuthorityViolation)
    } else if b.offer_vault_account.authority@ != b.offeror@ {
        Err(EscrowError::AuthorityViolation)
    } else if b.offer_vault_account.balance != 0 {
        Err(EscrowError::AllocationFailure)
    } else if b.offeror_deposit_token_account.authority@ != b.offeror@ {
        Err(EscrowError::AuthorityViolation)
    } else {
        Ok(())
    }
}

/// The validator's decision on a cancellation: the record must still exist,
/// the caller must be the stored owner, the refund account must be the one
/// captured at creation, the vault must still exist under the derived
/// authority, hold exactly the locked amount (so the closure observes a
/// zero balance), and the refund must fit the deposit account.
pub open spec fn cancel_verdict(b: CancelOffer, program_id: Identity) -> Result<(), EscrowError> {
    match b.offer_account {
        None => Err(EscrowError::NotFound),
        Some(rec) => if rec.offeror_key@ != b.offeror@ {
            Err(EscrowError::PreconditionViolation)
        } else if rec.offeror_deposit_token_account@ != b.offeror_deposit_token_account.address@ {
            Err(EscrowError::PreconditionViolation)
        } else {
            match b.offer_vault_account {
                None => Err(EscrowError::NotFound),
                Some(vault) => if vault_authority_of(program_id@) is None {
                    Err(EscrowError::AuthorityViolation)
                } else if b.offer_vault_authority@ != vault_authority_id(program_id@) {
                    Err(EscrowError::AuthorityViolation)
                } else if vault.authority@ != b.offer_vault_authority@ {
                    Err(EscrowError::AuthorityViolation)
                } else if vault.balance != rec.offeror_amount {
                    Err(EscrowError::PreconditionViolation)
                } else if b.offeror_deposit_token_account.balance + rec.offeror_amount > u64::MAX {
                    Err(EscrowError::PreconditionViolation)
                } else {
                    Ok(())
                },
            }
        },
    }
}

/// The validator's decision on an acceptance: the record must still exist
/// and its captured account references and owner identity must match the
/// accounts actually supplied; the acceptor must control and cover the
/// payment leg; the vault must still exist under the derived authority and
/// hold exactly the locked amount; and both credits must fit.
pub open spec fn accept_verdict(b: AcceptOffer, program_id: Identity) -> Result<(), EscrowError> {
    match b.offer_account {
        None => Err(EscrowError::NotFound),
        Some(rec) => if b.acceptor_deposit_token_account.balance < rec.acceptor_amount {
            Err(EscrowError::PreconditionViolation)
        } else if rec.offeror_deposit_token_account@ != b.offeror_deposit_token_account.address@ {
            Err(EscrowError::PreconditionViolation)
        } else if rec.offeror_receive_token_account@ != b.offeror_receive_token_account.address@ {
            Err(EscrowError::PreconditionViolation)
        } else if rec.offeror_key@ != b.offeror@ {
            Err(EscrowError::PreconditionViolation)
        } else {
            match b.offer_vault_account {
                None => Err(EscrowError::NotFound),
                Some(vault) => if b.acceptor_deposit_token_account.authority@ != b.acceptor@ {
                    Err(EscrowError::AuthorityViolation)
                } else if b.offeror_receive_token_account.balance + rec.acceptor_amount
                    > u64::MAX {
                    Err(EscrowError::PreconditionViolation)
                } else if vault_authority_of(program_id@) is None {
                    Err(EscrowError::AuthorityViolation)
                } else if b.offer_vault_authority@ != vault_authority_id(program_id@) {
                    Err(EscrowError::AuthorityViolation)
                } else if vault.authority@ != b.offer_vault_authority@ {
                    Err(EscrowError::AuthorityViolation)
                } else if vault.balance != rec.offeror_amount {
                    Err(EscrowError::PreconditionViolation)
                } else if b.acceptor_receive_token_account.balance + rec.offeror_amount
                    > u64::MAX {
                    Err(EscrowError::PreconditionViolation)
                } else {
                    Ok(())
                },
            }
        },
    }
}

/// Compute the listing verdict.
pub fn check_listing(b: &InitializeListing, initializer_amount: u64) -> (r: Result<
    (),
    EscrowError,
>)
    ensures
        r == listing_verdict(*b, initializer_amount),
{
    if b.listing_account.is_some() {
        return Err(EscrowError::AllocationFailure);
    }
    if b.initializer_deposit_token_account.balance < initializer_amount {
        return Err(EscrowError::PreconditionViolation);
    }
    Ok(())
}

/// Compute the offer-creation verdict.
pub fn check_offer(b: &OfferEscrow, program_id: &Identity, offeror_amount: u64) -> (r: Result<
    (),
    EscrowError,
>)
    ensures
        r == offer_verdict(*b, *program_id, offeror_amount),
{
    if b.offer_account.is_some() {
        return Err(EscrowError::AllocationFailure);
    }
    if b.offeror_deposit_token_account.balance < offeror_amount {
        return Err(EscrowError::PreconditionViolation);
    }
    if vault_authority(program_id).is_none() {
        return Err(EscrowError::AuthorityViolation);
    }
    if !b.offer_vault_account.authority.same_as(&b.offeror) {
        return Err(EscrowError::AuthorityViolation);
    }
    if b.offer_vault_account.balance != 0 {
        return Err(EscrowError::AllocationFailure);
    }
    if !b.offeror_deposit_token_account.authority.same_as(&b.offeror) {
        return Err(EscrowError::AuthorityViolation);
    }
    Ok(())
}

/// Compute the cancellation verdict.
pub fn check_cancel(b: &CancelOffer, program_id: &Identity) -> (r: Result<(), EscrowError>)
    ensures
        r == cancel_verdict(*b, *program_id),
{
    let rec = match b.offer_account {
        None => {
            return Err(EscrowError::NotFound);
        },
        Some(rec) => rec,
    };
    if !rec.offeror_key.same_as(&b.offeror) {
        return Err(EscrowError::PreconditionViolation);
    }
    if !rec.offeror_deposit_token_account.same_as(&b.offeror_deposit_token_account.address) {
        return Err(EscrowError::PreconditionViolation);
    }
    let vault = match b.offer_vault_account {
        None => {
            return Err(EscrowError::NotFound);
        },
        Some(vault) => vault,
    };
    let authority = match vault_authority(program_id) {
        None => {
            return Err(EscrowError::AuthorityViolation);
        },
        Some(p) => p.0,
    };
    if !b.offer_vault_authority.same_as(&authority) {
        return Err(EscrowError::AuthorityViolation);
    }
    if !vault.authority.same_as(&b.offer_vault_authority) {
        return Err(EscrowError::AuthorityViolation);
    }
    if vault.balance != rec.offeror_amount {
        return Err(EscrowError::PreconditionViolation);
    }
    if b.offeror_deposit_token_account.balance > u64::MAX - rec.offeror_amount {
        return Err(EscrowError::PreconditionViolation);
    }
    Ok(())
}

/// Compute the acceptance verdict.
pub fn check_accept(b: &AcceptOffer, program_id: &Identity) -> (r: Result<(), EscrowError>)
    ensures
        r == accept_verdict(*b, *program_id),
{
    let rec = match b.offer_account {
        None => {
            return Err(EscrowError::NotFound);
        },
        Some(rec) => rec,
    };
    if b.acceptor_deposit_token_account.balance < rec.acceptor_amount {
        return Err(EscrowError::PreconditionViolation);
    }
    if !rec.offeror_deposit_token_account.same_as(&b.offeror_deposit_token_account.address) {
        return Err(EscrowError::PreconditionViolation);
    }
    if !rec.offeror_receive_token_account.same_as(&b.offeror_receive_token_account.address) {
        return Err(EscrowError::PreconditionViolation);
    }
    if !rec.offeror_key.same_as(&b.offeror) {
        return Err(EscrowError::PreconditionViolation);
    }
    let vault = match b.offer_vault_account {
        None => {
            return Err(EscrowError::NotFound);
        },
        Some(vault) => vault,
    };
    if !b.acceptor_deposit_token_account.authority.same_as(&b.acceptor) {
        return Err(EscrowError::AuthorityViolation);
    }
    if b.offeror_receive_token_account.balance > u64::MAX - rec.acceptor_amount {
        return Err(EscrowError::PreconditionViolation);
    }
    let authority = match vault_authority(program_id) {
        None => {
            return Err(EscrowError::AuthorityViolation);
        },
        Some(p) => p.0,
    };
    if !b.offer_vault_authority.same_as(&authority) {
        return Err(EscrowError::AuthorityViolation);
    }
    if !vault.authority.same_as(&b.offer_vault_authority) {
        return Err(EscrowError::AuthorityViolation);
    }
    if vault.balance != rec.offeror_amount {
        return Err(EscrowError::PreconditionViolation);
    }
    if b.acceptor_receive_token_account.balance > u64::MAX - rec.offeror_amount {
        return Err(EscrowError::PreconditionViolation);
    }
    Ok(())
}

} // verus!
