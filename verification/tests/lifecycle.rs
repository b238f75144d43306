//! State-machine behaviour: authority gating, mode resolution, approval
//! exclusivity, and guarded transitions.

use offering_ledger::addr::Address;
use offering_ledger::constant::{
    OFFERING_HAS_SOLD_OUT, OFFERING_IS_APPROVED_BY_PUBLISHER, OFFERING_IS_INITIALIZED,
    OFFERING_IS_REJECTED_BY_PUBLISHER, OFFERING_PDA_TYPE, PUBLISHER_IS_INITIALIZED,
    PUBLISHER_IS_OPEN_FOR_OFFERING_CREATION, PUBLISHER_PDA_TYPE,
};
use offering_ledger::error::LedgerError;
use offering_ledger::lifecycle::{
    approve_offering, claim_publisher_authority, initiate_offering, initiate_publisher,
    initiate_publisher_token, reject_offering, update_publisher, update_publisher_token,
};
use offering_ledger::state::offering::OfferingVesting;
use offering_ledger::state::publisher::PublisherAccount;

fn addr(b: u8) -> Address {
    Address::from_bytes(vec![b; 32])
}

fn publisher_open() -> PublisherAccount {
    PublisherAccount {
        discriminator: PUBLISHER_PDA_TYPE,
        state: PUBLISHER_IS_INITIALIZED | PUBLISHER_IS_OPEN_FOR_OFFERING_CREATION,
        creator: addr(1),
        publisher_seed: addr(2),
        update_authority: addr(3),
        transfer_authority: addr(4),
        approval_authority: addr(5),
    }
}

fn sample_offering_approved() -> offering_ledger::state::offering::OfferingAccount {
    offering_ledger::state::offering::OfferingAccount {
        discriminator: OFFERING_PDA_TYPE,
        state: OFFERING_IS_INITIALIZED,
        publisher: addr(10),
        creator: addr(11),
        offering_seed: addr(12),
        promoter: addr(13),
        funded_mint: addr(14),
        offered_mint: addr(15),
        softcap: 500,
        hardcap: 1000,
        funded_amount: 0,
        min_funding: 500,
        max_funding: 1000,
        offer_quantity: 1000,
        distributed_quantity: 0,
        market_pool_percentage: 10,
        publish_time: 0,
        open_time: 100,
        close_time: 200,
        exit_time: 300,
        num_of_purchasers: 0,
        metadata_cid: Vec::new(),
        vestings: Vec::new(),
    }
}

#[test]
fn initiate_publisher_happy_path_with_derived_address() {
    let program_id = addr(40);
    let payer = addr(41);
    let seed = addr(42);
    let pid = solana_program::pubkey::Pubkey::new_from_array([40u8; 32]);
    let seeds: Vec<&[u8]> = vec![&[PUBLISHER_PDA_TYPE], &payer.bytes, &seed.bytes];
    let (pda, bump) = solana_program::pubkey::Pubkey::find_program_address(&seeds, &pid);
    let pda_addr = Address::from_bytes(pda.to_bytes().to_vec());
    let r = initiate_publisher(&program_id, &payer, true, 1, None, &pda_addr, &seed).unwrap();
    assert_eq!(r.1, bump);
    let rec = r.0;
    assert_eq!(rec.discriminator, PUBLISHER_PDA_TYPE);
    assert_eq!(rec.state, PUBLISHER_IS_INITIALIZED);
    assert_eq!(rec.creator.bytes, payer.bytes);
    assert_eq!(rec.publisher_seed.bytes, seed.bytes);
    // Mode bit 1: the payer stands in for the authority.
    assert_eq!(rec.update_authority.bytes, payer.bytes);
    assert_eq!(rec.transfer_authority.bytes, payer.bytes);
    assert_eq!(rec.approval_authority.bytes, payer.bytes);
}

#[test]
fn initiate_publisher_rejects_wrong_address() {
    let r = initiate_publisher(&addr(40), &addr(41), true, 1, None, &addr(9), &addr(42));
    assert_eq!(r.unwrap_err(), LedgerError::InvalidAddress);
}

#[test]
fn initiate_publisher_rejects_undefined_mode_bits() {
    let r = initiate_publisher(&addr(40), &addr(41), true, 0b1000_0000, None, &addr(9), &addr(42));
    assert_eq!(r.unwrap_err(), LedgerError::UnhandledState);
}

#[test]
fn initiate_publisher_requires_signature_and_authority_slot() {
    let r = initiate_publisher(&addr(40), &addr(41), false, 1, None, &addr(9), &addr(42));
    assert_eq!(r.unwrap_err(), LedgerError::MissingSignature);
    // Mode 0 requires a separate authority slot.
    let r = initiate_publisher(&addr(40), &addr(41), true, 0, None, &addr(9), &addr(42));
    assert_eq!(r.unwrap_err(), LedgerError::InvalidState);
}

#[test]
fn update_publisher_by_wrong_signer_changes_nothing() {
    let mut p = publisher_open();
    let before = p.pack();
    let outsider = addr(66);
    let r = update_publisher(&mut p, &outsider, true, &addr(7), &addr(8), &addr(9), false);
    assert_eq!(r.unwrap_err(), LedgerError::Unauthorized);
    assert_eq!(p.pack(), before);
}

#[test]
fn update_publisher_unsigned_changes_nothing() {
    let mut p = publisher_open();
    let before = p.pack();
    let authority = addr(3);
    let r = update_publisher(&mut p, &authority, false, &addr(7), &addr(8), &addr(9), true);
    assert_eq!(r.unwrap_err(), LedgerError::MissingSignature);
    assert_eq!(p.pack(), before);
}

#[test]
fn update_publisher_applies_changes() {
    let mut p = publisher_open();
    let authority = addr(3);
    update_publisher(&mut p, &authority, true, &addr(7), &addr(8), &addr(9), false).unwrap();
    assert_eq!(p.update_authority.bytes, addr(7).bytes);
    assert_eq!(p.transfer_authority.bytes, addr(8).bytes);
    assert_eq!(p.approval_authority.bytes, addr(9).bytes);
    assert!(!p.is_open_for_offering_creation());
    assert!(p.is_initialized());
    // The creator and the seed are immutable.
    assert_eq!(p.creator.bytes, addr(1).bytes);
    assert_eq!(p.publisher_seed.bytes, addr(2).bytes);
}

#[test]
fn claim_publisher_authority_two_phase_handoff() {
    let mut p = publisher_open();
    let authority = addr(3);
    let proposed = addr(77);
    // Phase one: the current update authority proposes by setting the
    // transfer authority; nothing else changes hands yet.
    update_publisher(&mut p, &authority, true, &addr(3), &proposed, &addr(5), true).unwrap();
    assert_eq!(p.update_authority.bytes, addr(3).bytes);
    // An outsider cannot claim.
    let outsider = addr(78);
    assert_eq!(
        claim_publisher_authority(&mut p, &outsider, true).unwrap_err(),
        LedgerError::Unauthorized
    );
    // Phase two: the proposed authority signs and takes over every role.
    claim_publisher_authority(&mut p, &proposed, true).unwrap();
    assert_eq!(p.update_authority.bytes, proposed.bytes);
    assert_eq!(p.transfer_authority.bytes, proposed.bytes);
    assert_eq!(p.approval_authority.bytes, proposed.bytes);
}

#[test]
fn publisher_token_creation_and_update_are_gated() {
    let p = publisher_open();
    let wrong = addr(50);
    let r = initiate_publisher_token(&p, &addr(10), &wrong, true, &addr(51), 5, true, false, true);
    assert_eq!(r.unwrap_err(), LedgerError::Unauthorized);
    let authority = addr(3);
    let mut token = initiate_publisher_token(
        &p, &addr(10), &authority, true, &addr(51), 5, true, false, true,
    )
    .unwrap();
    assert!(token.is_initialized());
    assert!(token.allows_offer_creation_payment());
    assert!(!token.allows_offers());
    assert!(token.allows_funding());
    assert!(!token.is_disabled());
    assert_eq!(token.offer_creation_price, 5);
    let before = token.pack();
    assert_eq!(
        update_publisher_token(&mut token, &p, &wrong, true, 9, false, true, false, true)
            .unwrap_err(),
        LedgerError::Unauthorized
    );
    assert_eq!(token.pack(), before);
    update_publisher_token(&mut token, &p, &authority, true, 9, false, true, false, true).unwrap();
    assert_eq!(token.offer_creation_price, 9);
    assert!(token.is_disabled());
    assert!(token.allows_offers());
    assert!(!token.allows_funding());
}

#[test]
fn initiate_offering_checks_every_guard() {
    let p = publisher_open();
    let ok_vestings = vec![
        OfferingVesting { release_time: 400, percentage: 40 },
        OfferingVesting { release_time: 500, percentage: 60 },
    ];
    let make = |publisher: &PublisherAccount,
                softcap: u64,
                hardcap: u64,
                mpp: u8,
                open: i64,
                close: i64,
                exit: i64,
                vestings: Vec<OfferingVesting>| {
        initiate_offering(
            publisher,
            &addr(10),
            &addr(11),
            &addr(12),
            &addr(13),
            &addr(14),
            &addr(15),
            softcap,
            hardcap,
            500,
            1000,
            1000,
            mpp,
            0,
            open,
            close,
            exit,
            Vec::new(),
            vestings,
        )
    };
    // Happy path.
    let o = make(&p, 500, 1000, 10, 100, 200, 300, ok_vestings.clone()).unwrap();
    assert!(o.is_initialized());
    assert_eq!(o.funded_amount, 0);
    assert_eq!(o.distributed_quantity, 0);
    assert_eq!(o.num_of_purchasers, 0);
    // Publisher closed for offering creation.
    let mut closed = publisher_open();
    closed.state = PUBLISHER_IS_INITIALIZED;
    assert_eq!(
        make(&closed, 500, 1000, 10, 100, 200, 300, ok_vestings.clone()).unwrap_err(),
        LedgerError::InvalidState
    );
    // Window not open before close.
    assert_eq!(
        make(&p, 500, 1000, 10, 200, 200, 300, ok_vestings.clone()).unwrap_err(),
        LedgerError::InvalidState
    );
    // Zero softcap, and softcap above hardcap.
    assert_eq!(
        make(&p, 0, 1000, 10, 100, 200, 300, ok_vestings.clone()).unwrap_err(),
        LedgerError::InvalidState
    );
    assert_eq!(
        make(&p, 1001, 1000, 10, 100, 200, 300, ok_vestings.clone()).unwrap_err(),
        LedgerError::InvalidState
    );
    // Market pool percentage out of range.
    assert_eq!(
        make(&p, 500, 1000, 101, 100, 200, 300, ok_vestings.clone()).unwrap_err(),
        LedgerError::InvalidState
    );
    // One percentage above 100.
    assert_eq!(
        make(
            &p,
            500,
            1000,
            10,
            100,
            200,
            300,
            vec![OfferingVesting { release_time: 400, percentage: 101 }],
        )
        .unwrap_err(),
        LedgerError::InvalidState
    );
    // Percentages summing past 100.
    assert_eq!(
        make(
            &p,
            500,
            1000,
            10,
            100,
            200,
            300,
            vec![
                OfferingVesting { release_time: 400, percentage: 60 },
                OfferingVesting { release_time: 500, percentage: 60 },
            ],
        )
        .unwrap_err(),
        LedgerError::InvalidState
    );
    // Release times not strictly increasing.
    assert_eq!(
        make(
            &p,
            500,
            1000,
            10,
            100,
            200,
            300,
            vec![
                OfferingVesting { release_time: 500, percentage: 40 },
                OfferingVesting { release_time: 500, percentage: 60 },
            ],
        )
        .unwrap_err(),
        LedgerError::InvalidState
    );
    // Last release before the exit time.
    assert_eq!(
        make(
            &p,
            500,
            1000,
            10,
            100,
            200,
            300,
            vec![OfferingVesting { release_time: 299, percentage: 100 }],
        )
        .unwrap_err(),
        LedgerError::InvalidState
    );
}

#[test]
fn approve_then_reject_leaves_exactly_rejection() {
    let mut o = sample_offering_approved();
    let p = publisher_open();
    let approval = addr(5);
    approve_offering(&mut o, &p, &approval, true).unwrap();
    assert_eq!(o.state & OFFERING_IS_APPROVED_BY_PUBLISHER, OFFERING_IS_APPROVED_BY_PUBLISHER);
    assert_eq!(o.state & OFFERING_IS_REJECTED_BY_PUBLISHER, 0);
    reject_offering(&mut o, &p, &approval, true).unwrap();
    assert_eq!(o.state & OFFERING_IS_REJECTED_BY_PUBLISHER, OFFERING_IS_REJECTED_BY_PUBLISHER);
    assert_eq!(o.state & OFFERING_IS_APPROVED_BY_PUBLISHER, 0);
    // Unrelated bits survive both transitions.
    assert_eq!(o.state & OFFERING_IS_INITIALIZED, OFFERING_IS_INITIALIZED);
}

#[test]
fn reject_then_approve_leaves_exactly_approval() {
    let mut o = sample_offering_approved();
    o.state |= OFFERING_HAS_SOLD_OUT;
    let p = publisher_open();
    let approval = addr(5);
    reject_offering(&mut o, &p, &approval, true).unwrap();
    approve_offering(&mut o, &p, &approval, true).unwrap();
    assert_eq!(o.state & OFFERING_IS_APPROVED_BY_PUBLISHER, OFFERING_IS_APPROVED_BY_PUBLISHER);
    assert_eq!(o.state & OFFERING_IS_REJECTED_BY_PUBLISHER, 0);
    assert_eq!(o.state & OFFERING_HAS_SOLD_OUT, OFFERING_HAS_SOLD_OUT);
}

#[test]
fn approval_requires_the_approval_authority() {
    let mut o = sample_offering_approved();
    let p = publisher_open();
    let before = o.state;
    let update_auth = addr(3);
    assert_eq!(
        approve_offering(&mut o, &p, &update_auth, true).unwrap_err(),
        LedgerError::Unauthorized
    );
    assert_eq!(o.state, before);
    let approval = addr(5);
    assert_eq!(
        approve_offering(&mut o, &p, &approval, false).unwrap_err(),
        LedgerError::MissingSignature
    );
    assert_eq!(o.state, before);
}
