//! Codec behaviour: round trips, canonicalization, and rejection of
//! malformed buffers.

use offering_ledger::addr::Address;
use offering_ledger::constant::{
    CLOSED_PDA_TYPE, OFFERING_IS_INITIALIZED, OFFERING_PDA_TYPE, PUBLISHER_PDA_TYPE,
};
use offering_ledger::error::LedgerError;
use offering_ledger::lifecycle::{close_record, is_closed_account};
use offering_ledger::state::offering::{
    calc_offering_account_len, check_offering_account_data, pack_offering_account,
    pack_offering_bytes, unpack_offering_account, OfferingAccount, OfferingVesting,
};
use offering_ledger::state::publisher::{PublisherAccount, PUBLISHER_ACCOUNT_LEN};
use offering_ledger::state::publisher_token::{PublisherTokenAccount, PUBLISHER_TOKEN_ACCOUNT_LEN};
use offering_ledger::state::purchase::{PurchaseAccount, PURCHASE_ACCOUNT_LEN};

fn addr(b: u8) -> Address {
    Address::from_bytes(vec![b; 32])
}

fn sample_publisher() -> PublisherAccount {
    PublisherAccount {
        discriminator: PUBLISHER_PDA_TYPE,
        state: 0b0000_0011,
        creator: addr(1),
        publisher_seed: addr(2),
        update_authority: addr(3),
        transfer_authority: addr(4),
        approval_authority: addr(5),
    }
}

fn sample_offering(vestings: Vec<OfferingVesting>, metadata: Vec<u8>) -> OfferingAccount {
    OfferingAccount {
        discriminator: OFFERING_PDA_TYPE,
        state: OFFERING_IS_INITIALIZED,
        publisher: addr(10),
        creator: addr(11),
        offering_seed: addr(12),
        promoter: addr(13),
        funded_mint: addr(14),
        offered_mint: addr(15),
        softcap: 500,
        hardcap: 1000,
        funded_amount: 250,
        min_funding: 500,
        max_funding: 900,
        offer_quantity: 10_000,
        distributed_quantity: 4_000,
        market_pool_percentage: 25,
        publish_time: -17,
        open_time: 100,
        close_time: 200,
        exit_time: 300,
        num_of_purchasers: 7,
        metadata_cid: metadata,
        vestings,
    }
}

#[test]
fn publisher_round_trip() {
    let p = sample_publisher();
    let bytes = p.pack();
    assert_eq!(bytes.len(), PUBLISHER_ACCOUNT_LEN);
    let q = PublisherAccount::unpack_from_slice(&bytes).unwrap();
    assert_eq!(q.discriminator, PUBLISHER_PDA_TYPE);
    assert_eq!(q.state, p.state);
    assert_eq!(q.creator.bytes, p.creator.bytes);
    assert_eq!(q.publisher_seed.bytes, p.publisher_seed.bytes);
    assert_eq!(q.update_authority.bytes, p.update_authority.bytes);
    assert_eq!(q.transfer_authority.bytes, p.transfer_authority.bytes);
    assert_eq!(q.approval_authority.bytes, p.approval_authority.bytes);
}

#[test]
fn publisher_pack_forces_tag_and_initialized_bit() {
    let mut p = sample_publisher();
    p.discriminator = 9;
    p.state = 0b0000_0010;
    let bytes = p.pack();
    assert_eq!(bytes[0], PUBLISHER_PDA_TYPE);
    assert_eq!(bytes[1] & 0b0000_0001, 0b0000_0001);
    assert_eq!(bytes[1] & 0b0000_0010, 0b0000_0010);
}

#[test]
fn publisher_unpack_rejects_every_truncation() {
    let bytes = sample_publisher().pack();
    for cut in 0..bytes.len() {
        let r = PublisherAccount::unpack_from_slice(&bytes[..cut]);
        assert_eq!(r.unwrap_err(), LedgerError::MalformedRecord);
    }
}

#[test]
fn publisher_unpack_rejects_wrong_discriminator() {
    let mut bytes = sample_publisher().pack();
    bytes[0] = OFFERING_PDA_TYPE;
    let r = PublisherAccount::unpack_from_slice(&bytes);
    assert_eq!(r.unwrap_err(), LedgerError::MalformedRecord);
}

#[test]
fn publisher_unpack_reports_closed_record() {
    let mut bytes = sample_publisher().pack();
    bytes[0] = CLOSED_PDA_TYPE;
    let r = PublisherAccount::unpack_from_slice(&bytes);
    assert_eq!(r.unwrap_err(), LedgerError::AccountClosed);
}

#[test]
fn publisher_pack_into_slice_checks_size() {
    let p = sample_publisher();
    let mut small = vec![0u8; PUBLISHER_ACCOUNT_LEN - 1];
    assert_eq!(p.pack_into_slice(&mut small).unwrap_err(), LedgerError::MalformedRecord);
    assert_eq!(small, vec![0u8; PUBLISHER_ACCOUNT_LEN - 1]);
    let mut exact = vec![0u8; PUBLISHER_ACCOUNT_LEN];
    p.pack_into_slice(&mut exact).unwrap();
    assert_eq!(exact, p.pack());
}

#[test]
fn publisher_token_round_trip() {
    let t = PublisherTokenAccount {
        discriminator: offering_ledger::constant::PUBLISHER_TOKEN_PDA_TYPE,
        state: 0b0000_1111,
        publisher: addr(20),
        mint: addr(21),
        offer_creation_price: 123_456_789_012_345,
    };
    let bytes = t.pack();
    assert_eq!(bytes.len(), PUBLISHER_TOKEN_ACCOUNT_LEN);
    let u = PublisherTokenAccount::unpack_from_slice(&bytes).unwrap();
    assert_eq!(u.state, t.state);
    assert_eq!(u.publisher.bytes, t.publisher.bytes);
    assert_eq!(u.mint.bytes, t.mint.bytes);
    assert_eq!(u.offer_creation_price, t.offer_creation_price);
    assert!(u.is_initialized());
    assert!(u.allows_offer_creation_payment());
    assert!(u.allows_offers());
    assert!(u.allows_funding());
    assert!(!u.is_disabled());
}

#[test]
fn publisher_token_unpack_rejects_truncation_and_tag() {
    let t = PublisherTokenAccount {
        discriminator: offering_ledger::constant::PUBLISHER_TOKEN_PDA_TYPE,
        state: 1,
        publisher: addr(20),
        mint: addr(21),
        offer_creation_price: 5,
    };
    let bytes = t.pack();
    for cut in 0..bytes.len() {
        assert!(PublisherTokenAccount::unpack_from_slice(&bytes[..cut]).is_err());
    }
    let mut wrong = bytes.clone();
    wrong[0] = PUBLISHER_PDA_TYPE;
    assert_eq!(
        PublisherTokenAccount::unpack_from_slice(&wrong).unwrap_err(),
        LedgerError::MalformedRecord
    );
}

#[test]
fn purchase_round_trip() {
    let p = PurchaseAccount {
        discriminator: offering_ledger::constant::PURCHASE_PDA_TYPE,
        state: 1,
        funder: addr(30),
        offering: addr(31),
        quantity: 1000,
        funding_amount: 600,
        distributed: 400,
    };
    let bytes = p.pack();
    assert_eq!(bytes.len(), PURCHASE_ACCOUNT_LEN);
    let q = PurchaseAccount::unpack_from_slice(&bytes).unwrap();
    assert_eq!(q.funder.bytes, p.funder.bytes);
    assert_eq!(q.offering.bytes, p.offering.bytes);
    assert_eq!(q.quantity, 1000);
    assert_eq!(q.funding_amount, 600);
    assert_eq!(q.distributed, 400);
}

#[test]
fn offering_round_trip_empty_metadata_no_vestings() {
    let o = sample_offering(Vec::new(), Vec::new());
    let bytes = pack_offering_bytes(&o);
    assert_eq!(bytes.len(), calc_offering_account_len(&o));
    let p = unpack_offering_account(&bytes).unwrap();
    assert_eq!(p.state, o.state);
    assert_eq!(p.publisher.bytes, o.publisher.bytes);
    assert_eq!(p.softcap, o.softcap);
    assert_eq!(p.hardcap, o.hardcap);
    assert_eq!(p.publish_time, -17);
    assert_eq!(p.metadata_cid.len(), 0);
    assert_eq!(p.vestings.len(), 0);
}

#[test]
fn offering_round_trip_full() {
    let vestings = vec![
        OfferingVesting { release_time: -1000, percentage: 10 },
        OfferingVesting { release_time: 0, percentage: 30 },
        OfferingVesting { release_time: 9_000_000_000, percentage: 60 },
    ];
    let metadata = vec![0xde, 0xad, 0xbe, 0xef, 0x00, 0x42];
    let o = sample_offering(vestings.clone(), metadata.clone());
    let bytes = pack_offering_bytes(&o);
    let p = unpack_offering_account(&bytes).unwrap();
    assert_eq!(p.metadata_cid, metadata);
    assert_eq!(p.vestings, vestings);
    assert_eq!(p.offered_mint.bytes, o.offered_mint.bytes);
    assert_eq!(p.exit_time, 300);
    assert_eq!(p.num_of_purchasers, 7);
    assert_eq!(p.market_pool_percentage, 25);
}

#[test]
fn offering_round_trip_max_vestings() {
    let mut vestings = Vec::new();
    for i in 0..255u64 {
        vestings.push(OfferingVesting { release_time: i as i64, percentage: 0 });
    }
    let o = sample_offering(vestings, vec![9; 1000]);
    let bytes = pack_offering_bytes(&o);
    assert_eq!(bytes.len(), 300 + 1000 + 9 * 255);
    let p = unpack_offering_account(&bytes).unwrap();
    assert_eq!(p.vestings.len(), 255);
    assert_eq!(p.vestings[254].release_time, 254);
    assert_eq!(p.metadata_cid.len(), 1000);
}

#[test]
fn offering_unpack_rejects_every_truncation() {
    let o = sample_offering(
        vec![OfferingVesting { release_time: 5, percentage: 100 }],
        vec![1, 2, 3],
    );
    let bytes = pack_offering_bytes(&o);
    for cut in 0..bytes.len() {
        assert!(unpack_offering_account(&bytes[..cut]).is_err());
    }
    assert!(unpack_offering_account(&bytes).is_ok());
}

#[test]
fn offering_unpack_rejects_declared_length_mismatch() {
    let o = sample_offering(Vec::new(), vec![1, 2, 3, 4]);
    let mut bytes = pack_offering_bytes(&o);
    // Declare one metadata byte more than is present.
    bytes[291] = 5;
    assert_eq!(unpack_offering_account(&bytes).unwrap_err(), LedgerError::MalformedRecord);
    // Declare one vesting that is not present.
    bytes[291] = 4;
    bytes[299] = 1;
    assert_eq!(unpack_offering_account(&bytes).unwrap_err(), LedgerError::MalformedRecord);
}

#[test]
fn offering_unpack_rejects_wrong_discriminator_and_reports_closed() {
    let o = sample_offering(Vec::new(), Vec::new());
    let mut bytes = pack_offering_bytes(&o);
    bytes[0] = PUBLISHER_PDA_TYPE;
    assert_eq!(unpack_offering_account(&bytes).unwrap_err(), LedgerError::MalformedRecord);
    bytes[0] = CLOSED_PDA_TYPE;
    assert_eq!(unpack_offering_account(&bytes).unwrap_err(), LedgerError::AccountClosed);
}

#[test]
fn offering_pack_into_slice_checks_size() {
    let o = sample_offering(Vec::new(), vec![7, 7]);
    let needed = calc_offering_account_len(&o);
    let mut wrong = vec![0u8; needed + 1];
    assert_eq!(
        pack_offering_account(&mut wrong, &o).unwrap_err(),
        LedgerError::MalformedRecord
    );
    assert_eq!(wrong, vec![0u8; needed + 1]);
    let mut exact = vec![0u8; needed];
    pack_offering_account(&mut exact, &o).unwrap();
    assert_eq!(exact, pack_offering_bytes(&o));
}

#[test]
fn check_offering_account_data_validates_cheaply() {
    let o = sample_offering(Vec::new(), Vec::new());
    let bytes = pack_offering_bytes(&o);
    assert!(check_offering_account_data(&bytes));
    assert!(!check_offering_account_data(&bytes[..299]));
    let mut wrong = bytes.clone();
    wrong[0] = PUBLISHER_PDA_TYPE;
    assert!(!check_offering_account_data(&wrong));
    let mut uninit = bytes.clone();
    uninit[1] = 0;
    assert!(!check_offering_account_data(&uninit));
}

#[test]
fn close_record_marks_and_detects() {
    let mut bytes = sample_publisher().pack();
    assert!(!is_closed_account(&bytes));
    close_record(&mut bytes);
    assert!(is_closed_account(&bytes));
    assert_eq!(bytes[0], CLOSED_PDA_TYPE);
    assert_eq!(
        PublisherAccount::unpack_from_slice(&bytes).unwrap_err(),
        LedgerError::AccountClosed
    );
    assert!(!is_closed_account(&[]));
}

#[test]
fn error_names_are_stable() {
    assert_eq!(LedgerError::MalformedRecord.name(), "malformed record");
    assert_eq!(LedgerError::ArithmeticOverflow.name(), "arithmetic overflow");
}
