use grand_bazaar::accounts::ValueAccount;
use grand_bazaar::identity::{Identity, offer_seed, vault_authority};
use grand_bazaar::lifecycle::{AcceptOffer, CancelOffer, OfferEscrow};

fn id(tag: u8) -> Identity {
    Identity::new([tag; 32])
}

#[test]
fn offer_seed_is_the_word_offer() {
    assert_eq!(offer_seed(), b"offer".to_vec());
}

#[test]
fn derived_authority_is_deterministic() {
    let (first, first_bump) = vault_authority(&id(240)).unwrap();
    let (second, second_bump) = vault_authority(&id(240)).unwrap();
    assert!(first.same_as(&second));
    assert_eq!(first_bump, second_bump);
}

#[test]
fn derived_authority_differs_from_program_identity() {
    let (derived, _bump) = vault_authority(&id(240)).unwrap();
    assert!(!derived.same_as(&id(240)));
}

#[test]
fn derived_authority_matches_the_ledger_derivation() {
    let program = solana_pubkey::Pubkey::new_from_array([240u8; 32]);
    let (expected, expected_bump) =
        solana_pubkey::Pubkey::find_program_address(&[b"offer"], &program);
    let (derived, bump) = vault_authority(&id(240)).unwrap();
    assert_eq!(derived.bytes, expected.to_bytes());
    assert_eq!(bump, expected_bump);
}

#[test]
fn identity_equality_is_bytewise() {
    assert!(id(7).same_as(&id(7)));
    assert!(!id(7).same_as(&id(8)));
    let mut bytes = [7u8; 32];
    bytes[31] = 8;
    assert!(!id(7).same_as(&Identity::new(bytes)));
}

#[test]
fn offer_context_builders_expose_the_captured_accounts() {
    let b = OfferEscrow {
        offeror: id(1),
        offer_vault_account: ValueAccount { address: id(10), authority: id(1), balance: 0 },
        offeror_deposit_token_account: ValueAccount { address: id(11), authority: id(1), balance: 5 },
        offeror_receive_token_account: ValueAccount { address: id(12), authority: id(1), balance: 0 },
        offer_account: None,
    };
    let set_authority = b.into_set_authority_context();
    assert!(set_authority.account_or_mint.same_as(&id(10)));
    assert!(set_authority.current_authority.same_as(&id(1)));
    let deposit = b.into_transfer_to_pda_context();
    assert!(deposit.from.same_as(&id(11)));
    assert!(deposit.to.same_as(&id(10)));
    assert!(deposit.authority.same_as(&id(1)));
}

#[test]
fn cancel_context_builders_expose_the_captured_accounts() {
    let c = CancelOffer {
        offeror: id(1),
        offer_vault_account: Some(ValueAccount { address: id(10), authority: id(9), balance: 40 }),
        offer_vault_authority: id(9),
        offeror_deposit_token_account: ValueAccount { address: id(11), authority: id(1), balance: 0 },
        offer_account: None,
    };
    let refund = c.into_transfer_to_offeror_context().unwrap();
    assert!(refund.from.same_as(&id(10)));
    assert!(refund.to.same_as(&id(11)));
    assert!(refund.authority.same_as(&id(9)));
    let close = c.into_close_context().unwrap();
    assert!(close.account.same_as(&id(10)));
    assert!(close.destination.same_as(&id(1)));
    assert!(close.authority.same_as(&id(9)));
    let consumed = CancelOffer { offer_vault_account: None, ..c };
    assert!(consumed.into_transfer_to_offeror_context().is_none());
    assert!(consumed.into_close_context().is_none());
}

#[test]
fn accept_context_builders_expose_the_captured_accounts() {
    let a = AcceptOffer {
        acceptor: id(2),
        acceptor_deposit_token_account: ValueAccount { address: id(20), authority: id(2), balance: 60 },
        acceptor_receive_token_account: ValueAccount { address: id(21), authority: id(2), balance: 0 },
        offeror_deposit_token_account: ValueAccount { address: id(11), authority: id(1), balance: 0 },
        offeror_receive_token_account: ValueAccount { address: id(12), authority: id(1), balance: 0 },
        offeror: id(1),
        offer_account: None,
        offer_vault_account: Some(ValueAccount { address: id(10), authority: id(9), balance: 100 }),
        offer_vault_authority: id(9),
    };
    let payment = a.into_transfer_to_offeror_context();
    assert!(payment.from.same_as(&id(20)));
    assert!(payment.to.same_as(&id(12)));
    assert!(payment.authority.same_as(&id(2)));
    let release = a.into_transfer_to_acceptor_context().unwrap();
    assert!(release.from.same_as(&id(10)));
    assert!(release.to.same_as(&id(21)));
    assert!(release.authority.same_as(&id(9)));
    let close = a.into_close_context().unwrap();
    assert!(close.account.same_as(&id(10)));
    assert!(close.destination.same_as(&id(1)));
    assert!(close.authority.same_as(&id(9)));
}
