//! The protocol's laws, stated over the validator's verdicts and the
//! custody model and proved once for all inputs.

use vstd::prelude::*;
use crate::accounts::ValueAccount;
use crate::errors::EscrowError;
use crate::identity::{Identity, vault_authority_id, vault_authority_of};
use crate::lifecycle::{AcceptOffer, CancelOffer, OfferEscrow, created_offer_record};
use crate::records::OfferAccount;
use crate::validator::{accept_verdict, cancel_verdict, offer_verdict};

verus! {

/// The custody invariant: an offer record exists exactly when a custody
/// vault exists that holds exactly the locked amount and is controlled by
/// the derived authority — and a destroyed record leaves no vault behind.
pub open spec fn custody_consistent(
    record: Option<OfferAccount>,
    vault: Option<ValueAccount>,
    program_id: Identity,
) -> bool {
    match record {
        Some(rec) => {
            &&& vault matches Some(v)
            &&& v.balance == rec.offeror_amount
            &&& vault_authority_of(program_id@) is Some
            &&& v.authority@ == vault_authority_id(program_id@)
        },
        None => vault is None,
    }
}

/// Cancellation obeys the stored owner alone: whenever the record still
/// exists and the caller is any identity other than the stored
/// `offeror_key`, the validator rejects the cancellation with a
/// precondition violation — and a rejected operation changes nothing.
pub proof fn lemma_cancel_owner_only(b: CancelOffer, program_id: Identity)
    requires
        b.offer_account is Some,
        (b.offer_account->0).offeror_key@ != b.offeror@,
    ensures
        cancel_verdict(b, program_id) == Err::<(), EscrowError>(
            EscrowError::PreconditionViolation,
        ),
{
}

/// Destruction is terminal: once the custody record has been consumed —
/// by either exit — every later cancellation or acceptance of the same
/// reference reports not-found, whatever else the caller supplies.
pub proof fn lemma_destruction_is_terminal(
    cancel_bundle: CancelOffer,
    accept_bundle: AcceptOffer,
    program_id: Identity,
)
    requires
        cancel_bundle.offer_account is None,
        accept_bundle.offer_account is None,
    ensures
        cancel_verdict(cancel_bundle, program_id) == Err::<(), EscrowError>(EscrowError::NotFound),
        accept_verdict(accept_bundle, program_id) == Err::<(), EscrowError>(EscrowError::NotFound),
{
}

/// A valid creation establishes the custody invariant: the record it
/// persists and any vault in the state the creation leaves it — holding
/// exactly the locked amount under the derived authority — are consistent.
pub proof fn lemma_create_establishes_custody(
    b: OfferEscrow,
    program_id: Identity,
    offeror_amount: u64,
    acceptor_amount: u64,
    vault: ValueAccount,
)
    requires
        offer_verdict(b, program_id, offeror_amount) is Ok,
        vault.balance == offeror_amount,
        vault.authority@ == vault_authority_id(program_id@),
    ensures
        custody_consistent(
            Some(created_offer_record(b, offeror_amount, acceptor_amount)),
            Some(vault),
            program_id,
        ),
{
}

/// Both exits re-establish the custody invariant: cancel and accept
/// destroy the record and the vault together, and record-less, vault-less
/// state is consistent.
pub proof fn lemma_destruction_preserves_custody(program_id: Identity)
    ensures
        custody_consistent(None::<OfferAccount>, None::<ValueAccount>, program_id),
{
}

} // verus!
