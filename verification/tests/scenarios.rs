//! End-to-end funding scenarios: caps, overflow, vesting distribution,
//! refunds and withdrawal.

use offering_ledger::addr::Address;
use offering_ledger::constant::{
    OFFERING_HAS_SOLD_OUT, OFFERING_IS_APPROVED_BY_PUBLISHER, OFFERING_IS_INITIALIZED,
    OFFERING_OFFER_IS_PROVIDED, OFFERING_PDA_TYPE, PURCHASE_ADDED_EVENT, PURCHASE_PDA_TYPE,
};
use offering_ledger::error::LedgerError;
use offering_ledger::event::event_record;
use offering_ledger::lifecycle::{
    deposit_to_market_pool, distribute_to_purchase, finalize_offering_creation, initiate_purchase,
    purchase_tokens, record_purchase, refund_purchase, withdraw_funds,
};
use offering_ledger::state::offering::{OfferingAccount, OfferingVesting};
use offering_ledger::state::purchase::PurchaseAccount;

fn addr(b: u8) -> Address {
    Address::from_bytes(vec![b; 32])
}

fn offering(hardcap: u64, min_funding: u64, vestings: Vec<OfferingVesting>) -> OfferingAccount {
    OfferingAccount {
        discriminator: OFFERING_PDA_TYPE,
        state: OFFERING_IS_INITIALIZED | OFFERING_IS_APPROVED_BY_PUBLISHER,
        publisher: addr(10),
        creator: addr(11),
        offering_seed: addr(12),
        promoter: addr(13),
        funded_mint: addr(14),
        offered_mint: addr(15),
        softcap: min_funding,
        hardcap,
        funded_amount: 0,
        min_funding,
        max_funding: hardcap,
        offer_quantity: 1000,
        distributed_quantity: 0,
        market_pool_percentage: 10,
        publish_time: 0,
        open_time: 100,
        close_time: 200,
        exit_time: 300,
        num_of_purchasers: 0,
        metadata_cid: Vec::new(),
        vestings,
    }
}

#[test]
fn purchases_respect_the_hardcap() {
    // Hardcap 1000, minimum funding 500: 300 and 300 succeed, a further
    // 500 is rejected outright, and finalizing succeeds on 600.
    let mut o = offering(1000, 500, Vec::new());
    purchase_tokens(&mut o, 300, 150, true).unwrap();
    assert_eq!(o.funded_amount, 300);
    assert_eq!(o.num_of_purchasers, 1);
    purchase_tokens(&mut o, 300, 160, true).unwrap();
    assert_eq!(o.funded_amount, 600);
    assert_eq!(o.num_of_purchasers, 2);
    let r = purchase_tokens(&mut o, 500, 170, true);
    assert_eq!(r.unwrap_err(), LedgerError::ArithmeticOverflow);
    assert_eq!(o.funded_amount, 600);
    assert_eq!(o.num_of_purchasers, 2);
    finalize_offering_creation(&mut o, 200).unwrap();
    assert_eq!(o.state & OFFERING_OFFER_IS_PROVIDED, OFFERING_OFFER_IS_PROVIDED);
}

#[test]
fn purchase_overflow_near_the_integer_maximum_is_rejected() {
    let mut o = offering(u64::MAX, 1, Vec::new());
    o.funded_amount = u64::MAX - 10;
    let before = o.funded_amount;
    assert_eq!(
        purchase_tokens(&mut o, 11, 150, false).unwrap_err(),
        LedgerError::ArithmeticOverflow
    );
    assert_eq!(o.funded_amount, before);
    purchase_tokens(&mut o, 10, 150, false).unwrap();
    assert_eq!(o.funded_amount, u64::MAX);
}

#[test]
fn reaching_the_hardcap_sets_sold_out() {
    let mut o = offering(1000, 500, Vec::new());
    purchase_tokens(&mut o, 999, 150, true).unwrap();
    assert_eq!(o.state & OFFERING_HAS_SOLD_OUT, 0);
    assert!(!o.has_sold_out());
    purchase_tokens(&mut o, 1, 151, true).unwrap();
    assert!(o.has_sold_out());
    assert_eq!(o.fundable_amount(), 0);
    // Sold out before the close time lets creation finalize early.
    finalize_offering_creation(&mut o, 180).unwrap();
}

#[test]
fn purchase_requires_approval_and_open_window() {
    let mut o = offering(1000, 500, Vec::new());
    o.state = OFFERING_IS_INITIALIZED;
    assert_eq!(purchase_tokens(&mut o, 10, 150, true).unwrap_err(), LedgerError::InvalidState);
    o.state = OFFERING_IS_INITIALIZED | OFFERING_IS_APPROVED_BY_PUBLISHER;
    assert_eq!(purchase_tokens(&mut o, 10, 99, true).unwrap_err(), LedgerError::InvalidState);
    assert_eq!(purchase_tokens(&mut o, 10, 200, true).unwrap_err(), LedgerError::InvalidState);
    // The window is closed at close_time and open at open_time.
    purchase_tokens(&mut o, 10, 100, true).unwrap();
    assert_eq!(o.funded_amount, 10);
}

#[test]
fn vesting_distribution_in_two_stages() {
    // Two vestings of 40% at t1=400 and 60% at t2=500 over a quantity of
    // 1000: distributing after t1 yields 400; after t2, 1000 in total.
    let vestings = vec![
        OfferingVesting { release_time: 400, percentage: 40 },
        OfferingVesting { release_time: 500, percentage: 60 },
    ];
    let mut o = offering(1000, 500, vestings);
    o.funded_amount = 600;
    o.state |= OFFERING_OFFER_IS_PROVIDED;
    let mut p = initiate_purchase(&addr(30), &addr(31), 1000, 600);
    // Before the first release nothing is distributable.
    assert_eq!(
        distribute_to_purchase(&mut o, &mut p, 400).unwrap_err(),
        LedgerError::InvalidState
    );
    distribute_to_purchase(&mut o, &mut p, 450).unwrap();
    assert_eq!(o.distributed_quantity, 400);
    assert_eq!(p.distributed, 400);
    assert!(!o.is_all_vesting_distributed());
    // A second call before t2 finds nothing new.
    assert_eq!(
        distribute_to_purchase(&mut o, &mut p, 450).unwrap_err(),
        LedgerError::InvalidState
    );
    assert_eq!(o.distributed_quantity, 400);
    distribute_to_purchase(&mut o, &mut p, 501).unwrap();
    assert_eq!(o.distributed_quantity, 1000);
    assert_eq!(p.distributed, 1000);
    assert!(o.is_all_vesting_distributed());
}

#[test]
fn distribution_rounds_down_and_respects_offer_quantity() {
    let vestings = vec![OfferingVesting { release_time: 400, percentage: 33 }];
    let mut o = offering(1000, 500, vestings);
    o.state |= OFFERING_OFFER_IS_PROVIDED;
    let mut p = initiate_purchase(&addr(30), &addr(31), 10, 600);
    // floor(10 * 33 / 100) = 3.
    distribute_to_purchase(&mut o, &mut p, 450).unwrap();
    assert_eq!(o.distributed_quantity, 3);
    assert_eq!(p.distributed, 3);
    // A distribution that would push past the reserved quantity fails.
    let mut tight = offering(1000, 500, vec![OfferingVesting { release_time: 400, percentage: 100 }]);
    tight.state |= OFFERING_OFFER_IS_PROVIDED;
    tight.offer_quantity = 100;
    let mut big = initiate_purchase(&addr(32), &addr(31), 101, 600);
    assert_eq!(
        distribute_to_purchase(&mut tight, &mut big, 450).unwrap_err(),
        LedgerError::ArithmeticOverflow
    );
    assert_eq!(tight.distributed_quantity, 0);
    assert_eq!(big.distributed, 0);
}

#[test]
fn missed_minimum_funding_blocks_distribution_and_refunds() {
    // Minimum funding 500 but only 300 collected by the close: creation
    // cannot finalize, distribution is an invalid state, and each
    // purchaser's contribution is refunded exactly once.
    let vestings = vec![OfferingVesting { release_time: 400, percentage: 100 }];
    let mut o = offering(1000, 500, vestings);
    o.funded_amount = 300;
    assert_eq!(
        finalize_offering_creation(&mut o, 250).unwrap_err(),
        LedgerError::InvalidState
    );
    let mut p = initiate_purchase(&addr(30), &addr(31), 300, 300);
    assert_eq!(
        distribute_to_purchase(&mut o, &mut p, 450).unwrap_err(),
        LedgerError::InvalidState
    );
    // Refund is only available after the close.
    assert_eq!(refund_purchase(&o, &mut p, 150).unwrap_err(), LedgerError::InvalidState);
    assert_eq!(refund_purchase(&o, &mut p, 200).unwrap(), 300);
    assert_eq!(p.funding_amount, 0);
    // A second refund finds nothing to return.
    assert_eq!(refund_purchase(&o, &mut p, 200).unwrap_err(), LedgerError::InvalidState);
}

#[test]
fn refund_unavailable_once_minimum_funding_met() {
    let mut o = offering(1000, 500, Vec::new());
    o.funded_amount = 600;
    let mut p = initiate_purchase(&addr(30), &addr(31), 600, 600);
    assert_eq!(refund_purchase(&o, &mut p, 250).unwrap_err(), LedgerError::InvalidState);
    assert_eq!(p.funding_amount, 600);
}

#[test]
fn withdrawal_happens_once_and_splits_the_market_pool_share() {
    let mut o = offering(1000, 500, Vec::new());
    o.funded_amount = 1000;
    // Too early.
    assert_eq!(withdraw_funds(&mut o, 300).unwrap_err(), LedgerError::InvalidState);
    // 10% of 1000 goes to the market pool; the creator draws 900.
    assert_eq!(withdraw_funds(&mut o, 301).unwrap(), 900);
    assert_eq!(withdraw_funds(&mut o, 302).unwrap_err(), LedgerError::InvalidState);
    assert_eq!(deposit_to_market_pool(&mut o, 301).unwrap(), 100);
    assert_eq!(deposit_to_market_pool(&mut o, 302).unwrap_err(), LedgerError::InvalidState);
}

#[test]
fn withdrawal_requires_minimum_funding() {
    let mut o = offering(1000, 500, Vec::new());
    o.funded_amount = 499;
    assert_eq!(withdraw_funds(&mut o, 301).unwrap_err(), LedgerError::InvalidState);
}

#[test]
fn record_purchase_accumulates_with_checked_arithmetic() {
    let mut p = initiate_purchase(&addr(30), &addr(31), 100, 200);
    record_purchase(&mut p, 50, 60).unwrap();
    assert_eq!(p.quantity, 150);
    assert_eq!(p.funding_amount, 260);
    assert_eq!(
        record_purchase(&mut p, u64::MAX, 0).unwrap_err(),
        LedgerError::ArithmeticOverflow
    );
    assert_eq!(p.quantity, 150);
    assert_eq!(p.funding_amount, 260);
    assert_eq!(p.discriminator, PURCHASE_PDA_TYPE);
}

#[test]
fn invariants_hold_across_a_full_life() {
    let vestings = vec![
        OfferingVesting { release_time: 400, percentage: 50 },
        OfferingVesting { release_time: 500, percentage: 50 },
    ];
    let mut o = offering(1000, 500, vestings);
    let mut p = initiate_purchase(&addr(30), &addr(31), 0, 0);
    for step in 0..6u64 {
        let _ = purchase_tokens(&mut o, 150, 150 + step as i64, step == 0);
        let _ = record_purchase(&mut p, 150, 150);
        assert!(o.funded_amount <= o.hardcap);
    }
    // 6 * 150 = 900 collected, under the 1000 hardcap.
    assert_eq!(o.funded_amount, 900);
    assert_eq!(p.quantity, 900);
    finalize_offering_creation(&mut o, 200).unwrap();
    distribute_to_purchase(&mut o, &mut p, 450).unwrap();
    assert!(o.distributed_quantity <= o.offer_quantity);
    distribute_to_purchase(&mut o, &mut p, 550).unwrap();
    assert!(o.distributed_quantity <= o.offer_quantity);
    assert_eq!(o.distributed_quantity, 900);
    let _ = withdraw_funds(&mut o, 301).unwrap();
    assert!(o.funded_amount <= o.hardcap);
}

#[test]
fn event_record_carries_all_fields() {
    let subject = addr(90);
    let image = vec![1, 2, 3];
    let e = event_record(PURCHASE_ADDED_EVENT, 123, &subject, image.clone(), vec![addr(91)]);
    assert_eq!(e.kind, PURCHASE_ADDED_EVENT);
    assert_eq!(e.time, 123);
    assert_eq!(e.subject.bytes, subject.bytes);
    assert_eq!(e.record_image, image);
    assert_eq!(e.parties.len(), 1);
    assert_eq!(e.parties[0].bytes, addr(91).bytes);
}
