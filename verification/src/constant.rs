//! Process-wide registry of record type tags, state bitflags, operation
//! modes and event kinds.  Record-type checks are centralized here so they
//! stay exhaustive: every persisted record starts with one of these
//! discriminator bytes, and a closed record carries the reserved
//! `CLOSED_PDA_TYPE` tag, distinct from every live entity tag.

use vstd::prelude::*;

verus! {

// Discriminator tags: one per persisted entity type, checked before any
// field of a record is trusted.
pub const PUBLISHER_PDA_TYPE: u8 = 1;
pub const PUBLISHER_TOKEN_PDA_TYPE: u8 = 2;
pub const OFFERING_PDA_TYPE: u8 = 3;
pub const PURCHASE_PDA_TYPE: u8 = 4;
/// Reserved tag for an administratively closed record; never a live type.
pub const CLOSED_PDA_TYPE: u8 = 255;

// Publisher state bits.
pub const PUBLISHER_IS_INITIALIZED: u8 = 0b00000001;
pub const PUBLISHER_IS_OPEN_FOR_OFFERING_CREATION: u8 = 0b00000010;

// Publisher-token state bits.
pub const PUBLISHER_TOKEN_IS_INITIALIZED: u8 = 0b00000001;
pub const ALLOW_TOKEN_AS_OFFER_CREATION_PAYMENT: u8 = 0b00000010;
pub const ALLOW_TOKEN_AS_OFFERS: u8 = 0b00000100;
pub const ALLOW_TOKEN_AS_FUNDING: u8 = 0b00001000;
pub const PUBLISHER_TOKEN_IS_DISABLED: u8 = 0b00010000;

// Offering state bits.  Several are orthogonal (approval outcome,
// sold-out, withdrawal status), so state is a set of bits, not an enum.
pub const OFFERING_IS_INITIALIZED: u8 = 0b00000001;
pub const OFFERING_HAS_SOLD_OUT: u8 = 0b00000100;
pub const OFFERING_IS_APPROVED_BY_PUBLISHER: u8 = 0b00001000;
pub const OFFERING_IS_REJECTED_BY_PUBLISHER: u8 = 0b00010000;
pub const OFFERING_OFFER_IS_PROVIDED: u8 = 0b00100000;
pub const OFFERING_FUNDS_IS_WITHDRAWN: u8 = 0b01000000;
pub const OFFERING_FUNDS_IS_DEPOSITED_TO_MARKET_POOL: u8 = 0b10000000;

// Purchase state bits.
pub const PURCHASE_IS_INITIALIZED: u8 = 0b00000001;

// Mode bitmasks.  Each bit says that two normally-distinct parties of an
// operation are the same account, so the second party's account slot is
// omitted from the operation's account list.  Undefined bits are rejected.
pub const INIT_PUBLISHER_MODE_PAYER_AND_AUTHORITY_ARE_THE_SAME: u8 = 0b00000001;

// Event kinds: one per mutating operation, for the append-only log.
pub const PUBLISHER_INITIATED_EVENT: u8 = 1;
pub const PUBLISHER_UPDATED_EVENT: u8 = 2;
pub const PUBLISHER_AUTHORITY_CLAIMED_EVENT: u8 = 3;
pub const PUBLISHER_TOKEN_INITIATED_EVENT: u8 = 4;
pub const PUBLISHER_TOKEN_UPDATED_EVENT: u8 = 5;
pub const OFFERING_INITIATED_EVENT: u8 = 6;
pub const OFFERING_APPROVAL_EVENT: u8 = 7;
pub const OFFERING_CREATION_FINALIZED_EVENT: u8 = 8;
pub const OFFERING_CLOSED_EVENT: u8 = 9;
pub const PURCHASE_INITIATED_EVENT: u8 = 10;
pub const PURCHASE_ADDED_EVENT: u8 = 11;
pub const PURCHASE_DISTRIBUTION_DISTRIBUTED_EVENT: u8 = 12;
pub const PURCHASE_REFUNDED_EVENT: u8 = 13;
pub const PUBLISHER_TOKEN_WITHDRAWAL_EVENT: u8 = 14;

/// Returns true when `flag` is set in the state byte `state`.
pub open spec fn has_flag(state: u8, flag: u8) -> bool {
    state & flag == flag
}

/// Exec twin of [`has_flag`].
#[verifier::when_used_as_spec(has_flag)]
pub fn flag_set(state: u8, flag: u8) -> (r: bool)
    ensures
        r == has_flag(state, flag),
{
    state & flag == flag
}

} // verus!
