//! The offering lifecycle state machine.
//!
//! Every operation validates authority and current state, then mutates the
//! in-memory records; nothing is persisted on error, so a failed operation
//! leaves every record exactly as it was.  All quantity accumulation is
//! checked: overflow or a cap breach aborts the operation.

use vstd::prelude::*;
use crate::addr::Address;
use crate::authority::{
    check_is_signer, check_signer_authority, opt_addr_view, resolve_init_publisher_authority,
    spec_init_publisher_authority,
};
use crate::constant::{
    has_flag, flag_set, ALLOW_TOKEN_AS_FUNDING, ALLOW_TOKEN_AS_OFFERS,
    ALLOW_TOKEN_AS_OFFER_CREATION_PAYMENT, CLOSED_PDA_TYPE,
    INIT_PUBLISHER_MODE_PAYER_AND_AUTHORITY_ARE_THE_SAME, PUBLISHER_IS_INITIALIZED,
    PUBLISHER_IS_OPEN_FOR_OFFERING_CREATION, PUBLISHER_PDA_TYPE, PUBLISHER_TOKEN_IS_DISABLED,
    PUBLISHER_TOKEN_IS_INITIALIZED, PUBLISHER_TOKEN_PDA_TYPE,
};
use crate::error::LedgerError;
use crate::pda::{derived_address, publisher_pda_seeds, spec_publisher_seeds, verify_pda};
use crate::state::publisher::{PublisherAccount, PublisherView};
use crate::state::publisher_token::{PublisherTokenAccount, PublisherTokenView};
use crate::state::offering::{
    spec_vesting_percent_sum, OfferingAccount, OfferingVesting, OfferingView, MAX_VESTINGS,
};
use crate::state::purchase::{PurchaseAccount, PurchaseView};
use crate::constant::{
    OFFERING_HAS_SOLD_OUT, OFFERING_IS_APPROVED_BY_PUBLISHER, OFFERING_IS_INITIALIZED,
    OFFERING_IS_REJECTED_BY_PUBLISHER, OFFERING_OFFER_IS_PROVIDED, OFFERING_FUNDS_IS_WITHDRAWN,
    OFFERING_FUNDS_IS_DEPOSITED_TO_MARKET_POOL, OFFERING_PDA_TYPE, PURCHASE_IS_INITIALIZED,
    PURCHASE_PDA_TYPE,
};
use crate::encoding::read_u8_at;
use vstd::arithmetic::div_mod::{
    lemma_div_pos_is_pos, lemma_fundamental_div_mod, lemma_mod_bound,
};
use vstd::arithmetic::mul::{
    lemma_mul_inequality, lemma_mul_is_commutative, lemma_mul_is_distributive_add,
    lemma_mul_nonnegative,
};

verus! {

/// Whether a stored record has been administratively closed: its first
/// byte carries the reserved closed tag.  An empty buffer is not closed.
pub fn is_closed_account(data: &[u8]) -> (r: bool)
    ensures
        r == (data@.len() > 0 && data@[0] == CLOSED_PDA_TYPE),
{
    let n: usize = data.len();
    if n == 0 {
        return false;
    }
    read_u8_at(data, 0) == CLOSED_PDA_TYPE
}

/// Administratively closes a stored record by overwriting its
/// discriminator with the reserved closed tag.  Every later operation
/// fails the type check before any business logic runs.
pub fn close_record(data: &mut Vec<u8>)
    requires
        old(data)@.len() > 0,
    ensures
        final(data)@ == old(data)@.update(0, CLOSED_PDA_TYPE),
{
    data[0] = CLOSED_PDA_TYPE;
}

/// The publisher record created for a creator, seed and authority.
pub open spec fn spec_new_publisher(
    creator: Seq<u8>,
    publisher_seed: Seq<u8>,
    authority: Seq<u8>,
) -> PublisherView {
    PublisherView {
        discriminator: PUBLISHER_PDA_TYPE,
        state: PUBLISHER_IS_INITIALIZED,
        creator: creator,
        publisher_seed: publisher_seed,
        update_authority: authority,
        transfer_authority: authority,
        approval_authority: authority,
    }
}

/// Creates a publisher record.
///
/// The payer must sign; the authority is resolved from the mode byte (the
/// payer itself, or the separate slot); the claimed record address must be
/// the one derived from the publisher seed list.  On success the returned
/// record is initialized, with all three authorities set to the resolved
/// authority, together with the verified bump seed.
pub fn initiate_publisher(
    program_id: &Address,
    payer: &Address,
    payer_is_signer: bool,
    mode: u8,
    authority_slot: Option<&Address>,
    publisher_pda: &Address,
    publisher_seed: &Address,
) -> (r: Result<(PublisherAccount, u8), LedgerError>)
    requires
        program_id.wf(),
        payer.wf(),
        publisher_seed.wf(),
        authority_slot matches Some(a) ==> a.wf(),
    ensures
        ({
            let auth = spec_init_publisher_authority(mode, payer@, opt_addr_view(authority_slot));
            let der = derived_address(
                spec_publisher_seeds(payer@, publisher_seed@),
                program_id@,
            );
            match r {
                Ok(p) => {
                    &&& payer_is_signer
                    &&& auth is Some
                    &&& der == Some((publisher_pda@, p.1))
                    &&& p.0@ == spec_new_publisher(payer@, publisher_seed@, auth->Some_0)
                    &&& p.0@.wf()
                },
                Err(e) => {
                    if !payer_is_signer {
                        e == LedgerError::MissingSignature
                    } else if auth is None {
                        e == (if mode & !INIT_PUBLISHER_MODE_PAYER_AND_AUTHORITY_ARE_THE_SAME
                            != 0 {
                            LedgerError::UnhandledState
                        } else {
                            LedgerError::InvalidState
                        })
                    } else {
                        e == LedgerError::InvalidAddress && match der {
                            Some(d) => d.0 != publisher_pda@,
                            None => true,
                        }
                    }
                },
            }
        }),
{
    match check_is_signer(payer_is_signer) {
        Err(e) => {
            return Err(e);
        },
        Ok(_) => {},
    }
    let authority = match resolve_init_publisher_authority(mode, payer, authority_slot) {
        Ok(a) => a,
        Err(e) => {
            return Err(e);
        },
    };
    let seeds = publisher_pda_seeds(payer, publisher_seed);
    let bump = match verify_pda(program_id, publisher_pda, &seeds) {
        Ok(b) => b,
        Err(e) => {
            return Err(e);
        },
    };
    let rec = PublisherAccount {
        discriminator: PUBLISHER_PDA_TYPE,
        state: PUBLISHER_IS_INITIALIZED,
        creator: payer.dup(),
        publisher_seed: publisher_seed.dup(),
        update_authority: authority.dup(),
        transfer_authority: authority.dup(),
        approval_authority: authority,
    };
    proof {
        assert(1u8 & 1u8 == 1u8) by (bit_vector);
    }
    Ok((rec, bump))
}

/// Updates a publisher's authorities and its open-for-offering-creation
/// flag.  Only the current update authority may do so; the creator, the
/// seed and the initialized bit are immutable.  On any failure the record
/// is left exactly as it was.
pub fn update_publisher(
    publisher: &mut PublisherAccount,
    signer: &Address,
    signer_is_signer: bool,
    new_update_authority: &Address,
    new_transfer_authority: &Address,
    new_approval_authority: &Address,
    open_for_offering_creation: bool,
) -> (r: Result<(), LedgerError>)
    requires
        old(publisher)@.addrs_wf(),
        new_update_authority.wf(),
        new_transfer_authority.wf(),
        new_approval_authority.wf(),
    ensures
        match r {
            Ok(_) => {
                &&& old(publisher)@.wf()
                &&& signer_is_signer
                &&& signer@ == old(publisher)@.update_authority
                &&& final(publisher)@ == (PublisherView {
                    state: if open_for_offering_creation {
                        old(publisher)@.state | PUBLISHER_IS_OPEN_FOR_OFFERING_CREATION
                    } else {
                        old(publisher)@.state & !PUBLISHER_IS_OPEN_FOR_OFFERING_CREATION
                    },
                    update_authority: new_update_authority@,
                    transfer_authority: new_transfer_authority@,
                    approval_authority: new_approval_authority@,
                    ..old(publisher)@
                })
                &&& final(publisher)@.wf()
                &&& has_flag(final(publisher)@.state, PUBLISHER_IS_OPEN_FOR_OFFERING_CREATION)
                    == open_for_offering_creation
            },
            Err(e) => {
                &&& final(publisher)@ == old(publisher)@
                &&& if !old(publisher)@.wf() {
                    e == LedgerError::InvalidState
                } else if !signer_is_signer {
                    e == LedgerError::MissingSignature
                } else {
                    e == LedgerError::Unauthorized && signer@ != old(
                        publisher,
                    )@.update_authority
                }
            },
        },
{
    if !publisher.is_initialized() {
        return Err(LedgerError::InvalidState);
    }
    match check_signer_authority(&publisher.update_authority, signer, signer_is_signer) {
        Err(e) => {
            return Err(e);
        },
        Ok(_) => {},
    }
    let s = publisher.state;
    let new_state: u8 = if open_for_offering_creation {
        s | PUBLISHER_IS_OPEN_FOR_OFFERING_CREATION
    } else {
        s & !PUBLISHER_IS_OPEN_FOR_OFFERING_CREATION
    };
    proof {
        assert((s | 0x02u8) & 0x01u8 == s & 0x01u8) by (bit_vector);
        assert((s & !0x02u8) & 0x01u8 == s & 0x01u8) by (bit_vector);
        assert((s | 0x02u8) & 0x02u8 == 0x02u8) by (bit_vector);
        assert((s & !0x02u8) & 0x02u8 == 0u8) by (bit_vector);
    }
    publisher.state = new_state;
    publisher.update_authority = new_update_authority.dup();
    publisher.transfer_authority = new_transfer_authority.dup();
    publisher.approval_authority = new_approval_authority.dup();
    Ok(())
}

/// Finalizes a two-phase authority handoff.  The proposed new authority
/// (held in `transfer_authority` since the proposal) signs and takes over
/// every authority role.  Until this call the proposal has no effect, and
/// the proposer never completing the handoff leaves the record usable.
pub fn claim_publisher_authority(
    publisher: &mut PublisherAccount,
    claimer: &Address,
    claimer_is_signer: bool,
) -> (r: Result<(), LedgerError>)
    requires
        old(publisher)@.addrs_wf(),
        claimer.wf(),
    ensures
        match r {
            Ok(_) => {
                &&& old(publisher)@.wf()
                &&& claimer_is_signer
                &&& claimer@ == old(publisher)@.transfer_authority
                &&& final(publisher)@ == (PublisherView {
                    update_authority: claimer@,
                    transfer_authority: claimer@,
                    approval_authority: claimer@,
                    ..old(publisher)@
                })
                &&& final(publisher)@.wf()
            },
            Err(e) => {
                &&& final(publisher)@ == old(publisher)@
                &&& if !old(publisher)@.wf() {
                    e == LedgerError::InvalidState
                } else if !claimer_is_signer {
                    e == LedgerError::MissingSignature
                } else {
                    e == LedgerError::Unauthorized && claimer@ != old(
                        publisher,
                    )@.transfer_authority
                }
            },
        },
{
    if !publisher.is_initialized() {
        return Err(LedgerError::InvalidState);
    }
    match check_signer_authority(&publisher.transfer_authority, claimer, claimer_is_signer) {
        Err(e) => {
            return Err(e);
        },
        Ok(_) => {},
    }
    publisher.update_authority = claimer.dup();
    publisher.transfer_authority = claimer.dup();
    publisher.approval_authority = claimer.dup();
    Ok(())
}

/// The state byte of a publisher-token record with the given allow-flags.
pub open spec fn spec_token_state(
    allow_as_offer_creation_payment: bool,
    allow_as_offers: bool,
    allow_as_funding: bool,
    disabled: bool,
) -> u8 {
    PUBLISHER_TOKEN_IS_INITIALIZED | (if allow_as_offer_creation_payment {
        ALLOW_TOKEN_AS_OFFER_CREATION_PAYMENT
    } else {
        0
    }) | (if allow_as_offers {
        ALLOW_TOKEN_AS_OFFERS
    } else {
        0
    }) | (if allow_as_funding {
        ALLOW_TOKEN_AS_FUNDING
    } else {
        0
    }) | (if disabled {
        PUBLISHER_TOKEN_IS_DISABLED
    } else {
        0
    })
}

/// Computes the state byte of a publisher-token record.
fn token_state(
    allow_as_offer_creation_payment: bool,
    allow_as_offers: bool,
    allow_as_funding: bool,
    disabled: bool,
) -> (s: u8)
    ensures
        s == spec_token_state(
            allow_as_offer_creation_payment,
            allow_as_offers,
            allow_as_funding,
            disabled,
        ),
        has_flag(s, PUBLISHER_TOKEN_IS_INITIALIZED),
{
    let s: u8 = PUBLISHER_TOKEN_IS_INITIALIZED | (if allow_as_offer_creation_payment {
        ALLOW_TOKEN_AS_OFFER_CREATION_PAYMENT
    } else {
        0
    }) | (if allow_as_offers {
        ALLOW_TOKEN_AS_OFFERS
    } else {
        0
    }) | (if allow_as_funding {
        ALLOW_TOKEN_AS_FUNDING
    } else {
        0
    }) | (if disabled {
        PUBLISHER_TOKEN_IS_DISABLED
    } else {
        0
    });
    proof {
        assert(forall|a: u8, b: u8, c: u8, d: u8|
            #[trigger] (1u8 | a | b | c | d) & 1u8 == 1u8) by (bit_vector);
    }
    s
}

/// Creates a publisher-token record binding a token to a publisher, with
/// its offer-creation price and allow-flags.  Only the publisher's update
/// authority may do so, and the publisher record must be initialized.
pub fn initiate_publisher_token(
    publisher: &PublisherAccount,
    publisher_address: &Address,
    authority: &Address,
    authority_is_signer: bool,
    mint: &Address,
    offer_creation_price: u64,
    allow_as_offer_creation_payment: bool,
    allow_as_offers: bool,
    allow_as_funding: bool,
) -> (r: Result<PublisherTokenAccount, LedgerError>)
    requires
        publisher@.addrs_wf(),
        publisher_address.wf(),
        authority.wf(),
        mint.wf(),
    ensures
        match r {
            Ok(token) => {
                &&& publisher@.wf()
                &&& authority_is_signer
                &&& authority@ == publisher@.update_authority
                &&& token@ == (PublisherTokenView {
                    discriminator: PUBLISHER_TOKEN_PDA_TYPE,
                    state: spec_token_state(
                        allow_as_offer_creation_payment,
                        allow_as_offers,
                        allow_as_funding,
                        false,
                    ),
                    publisher: publisher_address@,
                    mint: mint@,
                    offer_creation_price: offer_creation_price,
                })
                &&& token@.wf()
            },
            Err(e) => {
                if !publisher@.wf() {
                    e == LedgerError::InvalidState
                } else if !authority_is_signer {
                    e == LedgerError::MissingSignature
                } else {
                    e == LedgerError::Unauthorized && authority@ != publisher@.update_authority
                }
            },
        },
{
    if !publisher.is_initialized() {
        return Err(LedgerError::InvalidState);
    }
    match check_signer_authority(&publisher.update_authority, authority, authority_is_signer) {
        Err(e) => {
            return Err(e);
        },
        Ok(_) => {},
    }
    let state = token_state(
        allow_as_offer_creation_payment,
        allow_as_offers,
        allow_as_funding,
        false,
    );
    Ok(
        PublisherTokenAccount {
            discriminator: PUBLISHER_TOKEN_PDA_TYPE,
            state,
            publisher: publisher_address.dup(),
            mint: mint.dup(),
            offer_creation_price,
        },
    )
}

/// Updates a publisher-token's price and allow-flags, including disabling
/// it.  Only the publisher's update authority may do so.  On any failure
/// the record is left exactly as it was.
pub fn update_publisher_token(
    token: &mut PublisherTokenAccount,
    publisher: &PublisherAccount,
    authority: &Address,
    authority_is_signer: bool,
    offer_creation_price: u64,
    allow_as_offer_creation_payment: bool,
    allow_as_offers: bool,
    allow_as_funding: bool,
    disabled: bool,
) -> (r: Result<(), LedgerError>)
    requires
        old(token)@.addrs_wf(),
        publisher@.addrs_wf(),
        authority.wf(),
    ensures
        match r {
            Ok(_) => {
                &&& old(token)@.wf()
                &&& publisher@.wf()
                &&& authority_is_signer
                &&& authority@ == publisher@.update_authority
                &&& final(token)@ == (PublisherTokenView {
                    state: spec_token_state(
                        allow_as_offer_creation_payment,
                        allow_as_offers,
                        allow_as_funding,
                        disabled,
                    ),
                    offer_creation_price: offer_creation_price,
                    ..old(token)@
                })
                &&& final(token)@.wf()
            },
            Err(e) => {
                &&& final(token)@ == old(token)@
                &&& if !old(token)@.wf() || !publisher@.wf() {
                    e == LedgerError::InvalidState
                } else if !authority_is_signer {
                    e == LedgerError::MissingSignature
                } else {
                    e == LedgerError::Unauthorized && authority@ != publisher@.update_authority
                }
            },
        },
{
    if !token.is_initialized() {
        return Err(LedgerError::InvalidState);
    }
    if !publisher.is_initialized() {
        return Err(LedgerError::InvalidState);
    }
    match check_signer_authority(&publisher.update_authority, authority, authority_is_signer) {
        Err(e) => {
            return Err(e);
        },
        Ok(_) => {},
    }
    token.state = token_state(
        allow_as_offer_creation_payment,
        allow_as_offers,
        allow_as_funding,
        disabled,
    );
    token.offer_creation_price = offer_creation_price;
    Ok(())
}

// ---------------------------------------------------------------------
// Offering lifecycle
// ---------------------------------------------------------------------

/// The state byte after a publisher approval: the approved bit set, the
/// rejected bit cleared, every other bit untouched.
pub open spec fn spec_approved_state(s: u8) -> u8 {
    (s | OFFERING_IS_APPROVED_BY_PUBLISHER) & !OFFERING_IS_REJECTED_BY_PUBLISHER
}

/// The state byte after a publisher rejection: the rejected bit set, the
/// approved bit cleared, every other bit untouched.
pub open spec fn spec_rejected_state(s: u8) -> u8 {
    (s | OFFERING_IS_REJECTED_BY_PUBLISHER) & !OFFERING_IS_APPROVED_BY_PUBLISHER
}

/// Setting one bit touches no other bit.
proof fn lemma_set_bit_preserves(s: u8, b: u8, o: u8)
    requires
        b & o == 0,
    ensures
        (s | b) & o == s & o,
        (s | b) & b == b,
    decreases 0int,
{
    assert((b & o == 0) ==> ((s | b) & o == s & o && (s | b) & b == b)) by (bit_vector);
}

/// Bit bookkeeping of an approval or rejection: the set bit is on, the
/// cleared bit is off, and every unrelated bit is untouched.
proof fn lemma_approve_reject_bits(s: u8)
    ensures
        spec_approved_state(s) & OFFERING_IS_APPROVED_BY_PUBLISHER
            == OFFERING_IS_APPROVED_BY_PUBLISHER,
        spec_approved_state(s) & OFFERING_IS_REJECTED_BY_PUBLISHER == 0,
        spec_rejected_state(s) & OFFERING_IS_REJECTED_BY_PUBLISHER
            == OFFERING_IS_REJECTED_BY_PUBLISHER,
        spec_rejected_state(s) & OFFERING_IS_APPROVED_BY_PUBLISHER == 0,
        spec_approved_state(s) & 0x01u8 == s & 0x01u8,
        spec_approved_state(s) & 0x04u8 == s & 0x04u8,
        spec_approved_state(s) & 0x20u8 == s & 0x20u8,
        spec_approved_state(s) & 0x40u8 == s & 0x40u8,
        spec_approved_state(s) & 0x80u8 == s & 0x80u8,
        spec_rejected_state(s) & 0x01u8 == s & 0x01u8,
        spec_rejected_state(s) & 0x04u8 == s & 0x04u8,
        spec_rejected_state(s) & 0x20u8 == s & 0x20u8,
        spec_rejected_state(s) & 0x40u8 == s & 0x40u8,
        spec_rejected_state(s) & 0x80u8 == s & 0x80u8,
{
    assert(((s | 0x08u8) & !0x10u8) & 0x08u8 == 0x08u8 && ((s | 0x08u8) & !0x10u8) & 0x10u8 == 0u8
        && ((s | 0x10u8) & !0x08u8) & 0x10u8 == 0x10u8 && ((s | 0x10u8) & !0x08u8) & 0x08u8 == 0u8
        && ((s | 0x08u8) & !0x10u8) & 0x01u8 == s & 0x01u8 && ((s | 0x08u8) & !0x10u8) & 0x04u8
        == s & 0x04u8 && ((s | 0x08u8) & !0x10u8) & 0x20u8 == s & 0x20u8 && ((s | 0x08u8)
        & !0x10u8) & 0x40u8 == s & 0x40u8 && ((s | 0x08u8) & !0x10u8) & 0x80u8 == s & 0x80u8 && ((s
        | 0x10u8) & !0x08u8) & 0x01u8 == s & 0x01u8 && ((s | 0x10u8) & !0x08u8) & 0x04u8 == s
        & 0x04u8 && ((s | 0x10u8) & !0x08u8) & 0x20u8 == s & 0x20u8 && ((s | 0x10u8) & !0x08u8)
        & 0x40u8 == s & 0x40u8 && ((s | 0x10u8) & !0x08u8) & 0x80u8 == s & 0x80u8) by (bit_vector);
}

/// Marks the offering approved by the publisher.  Only the owning
/// publisher's approval authority may do so; approving clears a previous
/// rejection and touches no other state bit.
pub fn approve_offering(
    offering: &mut OfferingAccount,
    publisher: &PublisherAccount,
    authority: &Address,
    authority_is_signer: bool,
) -> (r: Result<(), LedgerError>)
    ensures
        match r {
            Ok(_) => {
                &&& old(offering)@.live()
                &&& publisher@.live()
                &&& authority_is_signer
                &&& authority@ == publisher@.approval_authority
                &&& final(offering)@ == (OfferingView {
                    state: spec_approved_state(old(offering)@.state),
                    ..old(offering)@
                })
                &&& has_flag(final(offering)@.state, OFFERING_IS_APPROVED_BY_PUBLISHER)
                &&& !has_flag(final(offering)@.state, OFFERING_IS_REJECTED_BY_PUBLISHER)
                &&& final(offering)@.live()
                &&& (old(offering)@.valid() ==> final(offering)@.valid())
            },
            Err(e) => {
                &&& final(offering)@ == old(offering)@
                &&& if !old(offering)@.live() || !publisher@.live() {
                    e == LedgerError::InvalidState
                } else if !authority_is_signer {
                    e == LedgerError::MissingSignature
                } else {
                    e == LedgerError::Unauthorized && authority@ != publisher@.approval_authority
                }
            },
        },
{
    if !offering.is_initialized() {
        return Err(LedgerError::InvalidState);
    }
    if !publisher.is_initialized() {
        return Err(LedgerError::InvalidState);
    }
    match check_signer_authority(&publisher.approval_authority, authority, authority_is_signer) {
        Err(e) => {
            return Err(e);
        },
        Ok(_) => {},
    }
    let s = offering.state;
    proof {
        lemma_approve_reject_bits(s);
    }
    offering.state = (s | OFFERING_IS_APPROVED_BY_PUBLISHER) & !OFFERING_IS_REJECTED_BY_PUBLISHER;
    Ok(())
}

/// Marks the offering rejected by the publisher.  Only the owning
/// publisher's approval authority may do so; rejecting clears a previous
/// approval and touches no other state bit.
pub fn reject_offering(
    offering: &mut OfferingAccount,
    publisher: &PublisherAccount,
    authority: &Address,
    authority_is_signer: bool,
) -> (r: Result<(), LedgerError>)
    ensures
        match r {
            Ok(_) => {
                &&& old(offering)@.live()
                &&& publisher@.live()
                &&& authority_is_signer
                &&& authority@ == publisher@.approval_authority
                &&& final(offering)@ == (OfferingView {
                    state: spec_rejected_state(old(offering)@.state),
                    ..old(offering)@
                })
                &&& has_flag(final(offering)@.state, OFFERING_IS_REJECTED_BY_PUBLISHER)
                &&& !has_flag(final(offering)@.state, OFFERING_IS_APPROVED_BY_PUBLISHER)
                &&& final(offering)@.live()
                &&& (old(offering)@.valid() ==> final(offering)@.valid())
            },
            Err(e) => {
                &&& final(offering)@ == old(offering)@
                &&& if !old(offering)@.live() || !publisher@.live() {
                    e == LedgerError::InvalidState
                } else if !authority_is_signer {
                    e == LedgerError::MissingSignature
                } else {
                    e == LedgerError::Unauthorized && authority@ != publisher@.approval_authority
                }
            },
        },
{
    if !offering.is_initialized() {
        return Err(LedgerError::InvalidState);
    }
    if !publisher.is_initialized() {
        return Err(LedgerError::InvalidState);
    }
    match check_signer_authority(&publisher.approval_authority, authority, authority_is_signer) {
        Err(e) => {
            return Err(e);
        },
        Ok(_) => {},
    }
    let s = offering.state;
    proof {
        lemma_approve_reject_bits(s);
    }
    offering.state = (s | OFFERING_IS_REJECTED_BY_PUBLISHER) & !OFFERING_IS_APPROVED_BY_PUBLISHER;
    Ok(())
}

/// Accepts a purchase into the offering's funding tally.
///
/// The offering must be approved and inside its `[open_time, close_time)`
/// window; the funding is added with a checked add and must not pass the
/// hardcap; on the funder's first purchase the purchaser count is
/// incremented with a checked add.  Reaching the hardcap exactly sets the
/// sold-out bit.  On any failure the record is left exactly as it was.
pub fn purchase_tokens(
    offering: &mut OfferingAccount,
    amount: u64,
    now: i64,
    is_first_purchase: bool,
) -> (r: Result<(), LedgerError>)
    ensures
        match r {
            Ok(_) => {
                &&& old(offering)@.live()
                &&& has_flag(old(offering)@.state, OFFERING_IS_APPROVED_BY_PUBLISHER)
                &&& now >= old(offering)@.open_time
                &&& now < old(offering)@.close_time
                &&& old(offering)@.funded_amount + amount <= old(offering)@.hardcap
                &&& (is_first_purchase ==> old(offering)@.num_of_purchasers < u64::MAX)
                &&& final(offering)@ == (OfferingView {
                    state: if old(offering)@.funded_amount + amount == old(offering)@.hardcap {
                        old(offering)@.state | OFFERING_HAS_SOLD_OUT
                    } else {
                        old(offering)@.state
                    },
                    funded_amount: (old(offering)@.funded_amount + amount) as u64,
                    num_of_purchasers: if is_first_purchase {
                        (old(offering)@.num_of_purchasers + 1) as u64
                    } else {
                        old(offering)@.num_of_purchasers
                    },
                    ..old(offering)@
                })
                &&& has_flag(final(offering)@.state, OFFERING_HAS_SOLD_OUT) == (old(
                    offering,
                )@.funded_amount + amount == old(offering)@.hardcap || has_flag(
                    old(offering)@.state,
                    OFFERING_HAS_SOLD_OUT,
                ))
                &&& final(offering)@.live()
                &&& (old(offering)@.valid() ==> final(offering)@.valid())
            },
            Err(e) => {
                &&& final(offering)@ == old(offering)@
                &&& if !old(offering)@.live() || !has_flag(
                    old(offering)@.state,
                    OFFERING_IS_APPROVED_BY_PUBLISHER,
                ) || !(now >= old(offering)@.open_time && now < old(offering)@.close_time) {
                    e == LedgerError::InvalidState
                } else {
                    e == LedgerError::ArithmeticOverflow && (old(offering)@.funded_amount + amount
                        > old(offering)@.hardcap || (is_first_purchase && old(
                        offering,
                    )@.num_of_purchasers == u64::MAX))
                }
            },
        },
{
    if !offering.is_initialized() {
        return Err(LedgerError::InvalidState);
    }
    if !flag_set(offering.state, OFFERING_IS_APPROVED_BY_PUBLISHER) {
        return Err(LedgerError::InvalidState);
    }
    if !(now >= offering.open_time && now < offering.close_time) {
        return Err(LedgerError::InvalidState);
    }
    let new_funded: u64 = match offering.funded_amount.checked_add(amount) {
        Some(v) => v,
        None => {
            return Err(LedgerError::ArithmeticOverflow);
        },
    };
    if new_funded > offering.hardcap {
        return Err(LedgerError::ArithmeticOverflow);
    }
    let new_count: u64 = if is_first_purchase {
        match offering.num_of_purchasers.checked_add(1) {
            Some(v) => v,
            None => {
                return Err(LedgerError::ArithmeticOverflow);
            },
        }
    } else {
        offering.num_of_purchasers
    };
    let s = offering.state;
    proof {
        assert(0x04u8 & 0x01u8 == 0u8 && 0x04u8 & 0x08u8 == 0u8) by (bit_vector);
        lemma_set_bit_preserves(s, OFFERING_HAS_SOLD_OUT, OFFERING_IS_INITIALIZED);
        lemma_set_bit_preserves(s, OFFERING_HAS_SOLD_OUT, OFFERING_IS_APPROVED_BY_PUBLISHER);
    }
    offering.funded_amount = new_funded;
    offering.num_of_purchasers = new_count;
    if new_funded == offering.hardcap {
        offering.state = s | OFFERING_HAS_SOLD_OUT;
    }
    Ok(())
}

/// Finalizes the offering's creation once purchasing is over.
///
/// Valid only after the close time has passed or the offering sold out,
/// and only when the collected funding reached `min_funding`; sets the
/// offer-provided bit exactly once.
pub fn finalize_offering_creation(offering: &mut OfferingAccount, now: i64) -> (r: Result<
    (),
    LedgerError,
>)
    ensures
        match r {
            Ok(_) => {
                &&& old(offering)@.live()
                &&& (now >= old(offering)@.close_time || has_flag(
                    old(offering)@.state,
                    OFFERING_HAS_SOLD_OUT,
                ))
                &&& old(offering)@.funded_amount >= old(offering)@.min_funding
                &&& !has_flag(old(offering)@.state, OFFERING_OFFER_IS_PROVIDED)
                &&& final(offering)@ == (OfferingView {
                    state: old(offering)@.state | OFFERING_OFFER_IS_PROVIDED,
                    ..old(offering)@
                })
                &&& has_flag(final(offering)@.state, OFFERING_OFFER_IS_PROVIDED)
                &&& final(offering)@.live()
                &&& (old(offering)@.valid() ==> final(offering)@.valid())
            },
            Err(e) => {
                &&& final(offering)@ == old(offering)@
                &&& e == LedgerError::InvalidState
                &&& (!old(offering)@.live() || !(now >= old(offering)@.close_time || has_flag(
                    old(offering)@.state,
                    OFFERING_HAS_SOLD_OUT,
                )) || old(offering)@.funded_amount < old(offering)@.min_funding || has_flag(
                    old(offering)@.state,
                    OFFERING_OFFER_IS_PROVIDED,
                ))
            },
        },
{
    if !offering.is_initialized() {
        return Err(LedgerError::InvalidState);
    }
    if !(now >= offering.close_time || flag_set(offering.state, OFFERING_HAS_SOLD_OUT)) {
        return Err(LedgerError::InvalidState);
    }
    if offering.funded_amount < offering.min_funding {
        return Err(LedgerError::InvalidState);
    }
    if flag_set(offering.state, OFFERING_OFFER_IS_PROVIDED) {
        return Err(LedgerError::InvalidState);
    }
    let s = offering.state;
    proof {
        assert(0x20u8 & 0x01u8 == 0u8) by (bit_vector);
        lemma_set_bit_preserves(s, OFFERING_OFFER_IS_PROVIDED, OFFERING_IS_INITIALIZED);
    }
    offering.state = s | OFFERING_OFFER_IS_PROVIDED;
    Ok(())
}

// ---------------------------------------------------------------------
// Funding and distribution arithmetic
// ---------------------------------------------------------------------

/// Quantity a purchase of `quantity` tokens is entitled to across the
/// vestings whose release time has passed: the floor of
/// `quantity * percentage / 100` for each released entry.
pub open spec fn spec_entitled(quantity: u64, vs: Seq<OfferingVesting>, now: i64) -> int
    decreases vs.len(),
{
    if vs.len() == 0 {
        0
    } else {
        spec_entitled(quantity, vs.drop_last(), now) + (if now > vs.last().release_time {
            quantity * vs.last().percentage / 100
        } else {
            0
        })
    }
}

/// The share of the collected funding that goes to the market pool.
pub open spec fn spec_market_pool_share(funded: u64, percentage: u8) -> int {
    funded * percentage / 100
}

/// The percentage sum is nonnegative, at most 255 per entry, and bounds
/// each individual entry.
proof fn lemma_percent_sum_bounds(vs: Seq<OfferingVesting>)
    ensures
        0 <= spec_vesting_percent_sum(vs) <= 255 * vs.len(),
        forall|i: int|
            0 <= i < vs.len() ==> (#[trigger] vs[i]).percentage <= spec_vesting_percent_sum(vs),
    decreases vs.len(),
{
    if vs.len() > 0 {
        lemma_percent_sum_bounds(vs.drop_last());
        assert forall|i: int|
            0 <= i < vs.len() implies (#[trigger] vs[i]).percentage <= spec_vesting_percent_sum(
            vs,
        ) by {
            if i < vs.len() - 1 {
                assert(vs.drop_last()[i] == vs[i]);
            }
        }
    }
}

/// One floored percentage application stays under the whole: a hundred
/// times `x * p / 100` is at most `x * p`, and the quotient is at most `x`
/// whenever `p` is at most 100.
proof fn lemma_percent_application_bounds(x: int, p: int)
    requires
        0 <= x,
        0 <= p,
    ensures
        0 <= x * p / 100,
        100 * (x * p / 100) <= x * p,
        p <= 100 ==> x * p / 100 <= x,
{
    lemma_mul_nonnegative(x, p);
    lemma_fundamental_div_mod(x * p, 100);
    lemma_mod_bound(x * p, 100);
    lemma_div_pos_is_pos(x * p, 100);
    if p <= 100 {
        lemma_mul_inequality(p, 100, x);
        lemma_mul_is_commutative(p, x);
        lemma_mul_is_commutative(100, x);
        assert(x * p <= x * 100);
        assert(100 * (x * p / 100) <= 100 * x);
    }
}

/// The entitlement is nonnegative and, scaled by a hundred, bounded by the
/// quantity times the percentage sum.
proof fn lemma_entitled_bounds(quantity: u64, vs: Seq<OfferingVesting>, now: i64)
    ensures
        0 <= spec_entitled(quantity, vs, now),
        100 * spec_entitled(quantity, vs, now) <= quantity * spec_vesting_percent_sum(vs),
    decreases vs.len(),
{
    let q = quantity as int;
    if vs.len() == 0 {
    } else {
        let rest = vs.drop_last();
        let p = vs.last().percentage as int;
        let e_rest = spec_entitled(quantity, rest, now);
        let s_rest = spec_vesting_percent_sum(rest);
        lemma_entitled_bounds(quantity, rest, now);
        lemma_percent_sum_bounds(rest);
        lemma_percent_application_bounds(q, p);
        lemma_mul_is_distributive_add(q, s_rest, p);
        assert(q * spec_vesting_percent_sum(vs) == q * s_rest + q * p);
    }
}

/// Under a percentage sum of at most 100, the entitlement never exceeds
/// the purchased quantity.
proof fn lemma_entitled_le_quantity(quantity: u64, vs: Seq<OfferingVesting>, now: i64)
    requires
        spec_vesting_percent_sum(vs) <= 100,
    ensures
        0 <= spec_entitled(quantity, vs, now) <= quantity,
{
    let q = quantity as int;
    let e = spec_entitled(quantity, vs, now);
    let su = spec_vesting_percent_sum(vs);
    lemma_entitled_bounds(quantity, vs, now);
    lemma_percent_sum_bounds(vs);
    lemma_mul_inequality(su, 100, q);
    lemma_mul_is_commutative(su, q);
    lemma_mul_is_commutative(100, q);
    assert(100 * e <= q * su);
    assert(q * su <= q * 100);
}

/// Computes the entitlement of a purchase across the released vestings.
fn entitled_quantity(quantity: u64, vestings: &Vec<OfferingVesting>, now: i64) -> (e: u64)
    requires
        spec_vesting_percent_sum(vestings@) <= 100,
        vestings@.len() <= MAX_VESTINGS,
    ensures
        e == spec_entitled(quantity, vestings@, now),
        e <= quantity,
{
    let n: usize = vestings.len();
    let mut total: u128 = 0;
    let mut j: usize = 0;
    while j < n
        invariant
            n == vestings@.len(),
            n <= MAX_VESTINGS,
            spec_vesting_percent_sum(vestings@) <= 100,
            j <= n,
            total == spec_entitled(quantity, vestings@.take(j as int), now),
            total <= (j as int) * (quantity as int),
        decreases n - j,
    {
        let entry = vestings[j];
        let ghost vs = vestings@;
        if now > entry.release_time {
            proof {
                lemma_percent_sum_bounds(vs);
                assert(vs[j as int].percentage <= spec_vesting_percent_sum(vs));
                lemma_percent_application_bounds(quantity as int, entry.percentage as int);
                lemma_mul_inequality(j as int, 255, quantity as int);
                lemma_mul_inequality(entry.percentage as int, 255, quantity as int);
                lemma_mul_is_commutative(quantity as int, entry.percentage as int);
            }
            let d: u128 = (quantity as u128) * (entry.percentage as u128) / 100;
            proof {
                assert(d <= quantity);
            }
            total = total + d;
        } else {
            proof {
                lemma_mul_inequality(j as int, 255, quantity as int);
            }
        }
        proof {
            assert(vs.take(j + 1).drop_last() =~= vs.take(j as int));
            assert(vs.take(j + 1).last() == vs[j as int]);
            assert(total == spec_entitled(quantity, vs.take(j + 1), now));
            lemma_mul_is_distributive_add(quantity as int, j as int, 1);
            lemma_mul_is_commutative(quantity as int, j as int);
            lemma_mul_is_commutative(quantity as int, j + 1);
        }
        j = j + 1;
    }
    proof {
        assert(vestings@.take(n as int) =~= vestings@);
        lemma_entitled_le_quantity(quantity, vestings@, now);
    }
    total as u64
}

/// Computes the market pool's share of the collected funding.
fn market_pool_share(funded: u64, percentage: u8) -> (s: u64)
    requires
        percentage <= 100,
    ensures
        s == spec_market_pool_share(funded, percentage),
        s <= funded,
{
    proof {
        lemma_percent_application_bounds(funded as int, percentage as int);
    }
    ((funded as u128) * (percentage as u128) / 100) as u64
}

/// Creates a purchase record for a funder and an offering.
pub fn initiate_purchase(
    funder: &Address,
    offering_address: &Address,
    quantity: u64,
    funding_amount: u64,
) -> (p: PurchaseAccount)
    requires
        funder.wf(),
        offering_address.wf(),
    ensures
        p@ == (PurchaseView {
            discriminator: PURCHASE_PDA_TYPE,
            state: PURCHASE_IS_INITIALIZED,
            funder: funder@,
            offering: offering_address@,
            quantity: quantity,
            funding_amount: funding_amount,
            distributed: 0,
        }),
        p@.wf(),
{
    proof {
        assert(1u8 & 1u8 == 1u8) by (bit_vector);
    }
    PurchaseAccount {
        discriminator: PURCHASE_PDA_TYPE,
        state: PURCHASE_IS_INITIALIZED,
        funder: funder.dup(),
        offering: offering_address.dup(),
        quantity,
        funding_amount,
        distributed: 0,
    }
}

/// Adds a further purchase to an existing purchase record with checked
/// arithmetic.  On any failure the record is left exactly as it was.
pub fn record_purchase(purchase: &mut PurchaseAccount, quantity: u64, funding_amount: u64) -> (r:
    Result<(), LedgerError>)
    ensures
        match r {
            Ok(_) => {
                &&& old(purchase)@.live()
                &&& old(purchase)@.quantity + quantity <= u64::MAX
                &&& old(purchase)@.funding_amount + funding_amount <= u64::MAX
                &&& final(purchase)@ == (PurchaseView {
                    quantity: (old(purchase)@.quantity + quantity) as u64,
                    funding_amount: (old(purchase)@.funding_amount + funding_amount) as u64,
                    ..old(purchase)@
                })
            },
            Err(e) => {
                &&& final(purchase)@ == old(purchase)@
                &&& if !old(purchase)@.live() {
                    e == LedgerError::InvalidState
                } else {
                    e == LedgerError::ArithmeticOverflow && (old(purchase)@.quantity + quantity
                        > u64::MAX || old(purchase)@.funding_amount + funding_amount > u64::MAX)
                }
            },
        },
{
    if !purchase.is_initialized() {
        return Err(LedgerError::InvalidState);
    }
    let new_quantity: u64 = match purchase.quantity.checked_add(quantity) {
        Some(v) => v,
        None => {
            return Err(LedgerError::ArithmeticOverflow);
        },
    };
    let new_funding: u64 = match purchase.funding_amount.checked_add(funding_amount) {
        Some(v) => v,
        None => {
            return Err(LedgerError::ArithmeticOverflow);
        },
    };
    purchase.quantity = new_quantity;
    purchase.funding_amount = new_funding;
    Ok(())
}

/// Distributes to one purchase every vesting released by `now` and not
/// yet distributed to it.
///
/// Valid only once the offer is provided and the first vesting has been
/// released.  The newly releasable quantity is checked-added into the
/// offering's distributed quantity and must not pass the reserved offer
/// quantity.  On any failure both records are left exactly as they were.
pub fn distribute_to_purchase(
    offering: &mut OfferingAccount,
    purchase: &mut PurchaseAccount,
    now: i64,
) -> (r: Result<(), LedgerError>)
    requires
        old(offering)@.valid(),
        old(purchase)@.addrs_wf(),
        old(purchase)@.distributed <= old(purchase)@.quantity,
    ensures
        ({
            let entitled = spec_entitled(old(purchase)@.quantity, old(offering)@.vestings, now);
            match r {
                Ok(_) => {
                    &&& old(offering)@.live()
                    &&& has_flag(old(offering)@.state, OFFERING_OFFER_IS_PROVIDED)
                    &&& old(purchase)@.live()
                    &&& old(offering)@.vestings.len() > 0
                    &&& now > old(offering)@.vestings[0].release_time
                    &&& entitled > old(purchase)@.distributed
                    &&& old(offering)@.distributed_quantity + (entitled - old(
                        purchase,
                    )@.distributed) <= old(offering)@.offer_quantity
                    &&& final(offering)@ == (OfferingView {
                        distributed_quantity: (old(offering)@.distributed_quantity + (entitled
                            - old(purchase)@.distributed)) as u64,
                        ..old(offering)@
                    })
                    &&& final(purchase)@ == (PurchaseView {
                        distributed: entitled as u64,
                        ..old(purchase)@
                    })
                    &&& final(offering)@.valid()
                    &&& final(purchase)@.distributed <= final(purchase)@.quantity
                },
                Err(e) => {
                    &&& final(offering)@ == old(offering)@
                    &&& final(purchase)@ == old(purchase)@
                    &&& if !old(offering)@.live() || !has_flag(
                        old(offering)@.state,
                        OFFERING_OFFER_IS_PROVIDED,
                    ) || !old(purchase)@.live() || !(old(offering)@.vestings.len() > 0 && now > old(
                        offering,
                    )@.vestings[0].release_time) {
                        e == LedgerError::InvalidState
                    } else if entitled <= old(purchase)@.distributed {
                        e == LedgerError::InvalidState
                    } else {
                        e == LedgerError::ArithmeticOverflow && old(offering)@.distributed_quantity
                            + (entitled - old(purchase)@.distributed) > old(
                            offering,
                        )@.offer_quantity
                    }
                },
            }
        }),
{
    if !offering.is_initialized() {
        return Err(LedgerError::InvalidState);
    }
    if !flag_set(offering.state, OFFERING_OFFER_IS_PROVIDED) {
        return Err(LedgerError::InvalidState);
    }
    if !purchase.is_initialized() {
        return Err(LedgerError::InvalidState);
    }
    if !offering.is_first_vesting_released(now) {
        return Err(LedgerError::InvalidState);
    }
    let entitled = entitled_quantity(purchase.quantity, &offering.vestings, now);
    if entitled <= purchase.distributed {
        return Err(LedgerError::InvalidState);
    }
    let delta: u64 = entitled - purchase.distributed;
    let new_distributed: u64 = match offering.distributed_quantity.checked_add(delta) {
        Some(v) => v,
        None => {
            return Err(LedgerError::ArithmeticOverflow);
        },
    };
    if new_distributed > offering.offer_quantity {
        return Err(LedgerError::ArithmeticOverflow);
    }
    offering.distributed_quantity = new_distributed;
    purchase.distributed = entitled;
    Ok(())
}

/// Refunds a purchaser's contribution after a close that missed the
/// minimum funding.  Returns the amount to hand back and zeroes the
/// purchase's funding so a second refund fails; the offering itself is
/// untouched.
pub fn refund_purchase(
    offering: &OfferingAccount,
    purchase: &mut PurchaseAccount,
    now: i64,
) -> (r: Result<u64, LedgerError>)
    ensures
        match r {
            Ok(amount) => {
                &&& offering@.live()
                &&& now >= offering@.close_time
                &&& offering@.funded_amount < offering@.min_funding
                &&& old(purchase)@.live()
                &&& old(purchase)@.funding_amount > 0
                &&& amount == old(purchase)@.funding_amount
                &&& final(purchase)@ == (PurchaseView { funding_amount: 0u64, ..old(purchase)@ })
            },
            Err(e) => {
                &&& final(purchase)@ == old(purchase)@
                &&& e == LedgerError::InvalidState
                &&& (!offering@.live() || now < offering@.close_time || offering@.funded_amount
                    >= offering@.min_funding || !old(purchase)@.live() || old(
                    purchase,
                )@.funding_amount == 0)
            },
        },
{
    if !offering.is_initialized() {
        return Err(LedgerError::InvalidState);
    }
    if now < offering.close_time {
        return Err(LedgerError::InvalidState);
    }
    if offering.funded_amount >= offering.min_funding {
        return Err(LedgerError::InvalidState);
    }
    if !purchase.is_initialized() {
        return Err(LedgerError::InvalidState);
    }
    if purchase.funding_amount == 0 {
        return Err(LedgerError::InvalidState);
    }
    let amount = purchase.funding_amount;
    purchase.funding_amount = 0;
    Ok(amount)
}

/// Withdraws the creator's share of the collected funds once past the
/// exit time with the minimum funding met.  Returns the amount to pay
/// out (the funding less the market pool's share) and sets the
/// funds-withdrawn bit so a second withdrawal fails.
pub fn withdraw_funds(offering: &mut OfferingAccount, now: i64) -> (r: Result<u64, LedgerError>)
    requires
        old(offering)@.valid(),
    ensures
        match r {
            Ok(amount) => {
                &&& old(offering)@.live()
                &&& now > old(offering)@.exit_time
                &&& old(offering)@.funded_amount >= old(offering)@.min_funding
                &&& !has_flag(old(offering)@.state, OFFERING_FUNDS_IS_WITHDRAWN)
                &&& amount == old(offering)@.funded_amount - spec_market_pool_share(
                    old(offering)@.funded_amount,
                    old(offering)@.market_pool_percentage,
                )
                &&& final(offering)@ == (OfferingView {
                    state: old(offering)@.state | OFFERING_FUNDS_IS_WITHDRAWN,
                    ..old(offering)@
                })
                &&& has_flag(final(offering)@.state, OFFERING_FUNDS_IS_WITHDRAWN)
                &&& final(offering)@.valid()
            },
            Err(e) => {
                &&& final(offering)@ == old(offering)@
                &&& e == LedgerError::InvalidState
                &&& (!old(offering)@.live() || now <= old(offering)@.exit_time || old(
                    offering,
                )@.funded_amount < old(offering)@.min_funding || has_flag(
                    old(offering)@.state,
                    OFFERING_FUNDS_IS_WITHDRAWN,
                ))
            },
        },
{
    if !offering.is_initialized() {
        return Err(LedgerError::InvalidState);
    }
    if now <= offering.exit_time {
        return Err(LedgerError::InvalidState);
    }
    if offering.funded_amount < offering.min_funding {
        return Err(LedgerError::InvalidState);
    }
    if flag_set(offering.state, OFFERING_FUNDS_IS_WITHDRAWN) {
        return Err(LedgerError::InvalidState);
    }
    let share = market_pool_share(offering.funded_amount, offering.market_pool_percentage);
    let s = offering.state;
    proof {
        assert(0x40u8 & 0x01u8 == 0u8) by (bit_vector);
        lemma_set_bit_preserves(s, OFFERING_FUNDS_IS_WITHDRAWN, OFFERING_IS_INITIALIZED);
    }
    offering.state = s | OFFERING_FUNDS_IS_WITHDRAWN;
    Ok(offering.funded_amount - share)
}

/// Deposits the configured percentage of the collected funds into the
/// market pool, exactly once.  Returns the share to move and sets the
/// deposited bit so a second deposit fails.
pub fn deposit_to_market_pool(offering: &mut OfferingAccount, now: i64) -> (r: Result<
    u64,
    LedgerError,
>)
    requires
        old(offering)@.valid(),
    ensures
        match r {
            Ok(amount) => {
                &&& old(offering)@.live()
                &&& now > old(offering)@.exit_time
                &&& old(offering)@.funded_amount >= old(offering)@.min_funding
                &&& !has_flag(old(offering)@.state, OFFERING_FUNDS_IS_DEPOSITED_TO_MARKET_POOL)
                &&& amount == spec_market_pool_share(
                    old(offering)@.funded_amount,
                    old(offering)@.market_pool_percentage,
                )
                &&& final(offering)@ == (OfferingView {
                    state: old(offering)@.state | OFFERING_FUNDS_IS_DEPOSITED_TO_MARKET_POOL,
                    ..old(offering)@
                })
                &&& has_flag(final(offering)@.state, OFFERING_FUNDS_IS_DEPOSITED_TO_MARKET_POOL)
                &&& final(offering)@.valid()
            },
            Err(e) => {
                &&& final(offering)@ == old(offering)@
                &&& e == LedgerError::InvalidState
                &&& (!old(offering)@.live() || now <= old(offering)@.exit_time || old(
                    offering,
                )@.funded_amount < old(offering)@.min_funding || has_flag(
                    old(offering)@.state,
                    OFFERING_FUNDS_IS_DEPOSITED_TO_MARKET_POOL,
                ))
            },
        },
{
    if !offering.is_initialized() {
        return Err(LedgerError::InvalidState);
    }
    if now <= offering.exit_time {
        return Err(LedgerError::InvalidState);
    }
    if offering.funded_amount < offering.min_funding {
        return Err(LedgerError::InvalidState);
    }
    if flag_set(offering.state, OFFERING_FUNDS_IS_DEPOSITED_TO_MARKET_POOL) {
        return Err(LedgerError::InvalidState);
    }
    let share = market_pool_share(offering.funded_amount, offering.market_pool_percentage);
    let s = offering.state;
    proof {
        assert(0x80u8 & 0x01u8 == 0u8) by (bit_vector);
        lemma_set_bit_preserves(
            s,
            OFFERING_FUNDS_IS_DEPOSITED_TO_MARKET_POOL,
            OFFERING_IS_INITIALIZED,
        );
    }
    offering.state = s | OFFERING_FUNDS_IS_DEPOSITED_TO_MARKET_POOL;
    Ok(share)
}

// ---------------------------------------------------------------------
// Offering creation
// ---------------------------------------------------------------------

/// Every vesting percentage is at most 100 and the percentages sum to at
/// most 100.
pub open spec fn spec_vesting_percents_ok(vs: Seq<OfferingVesting>) -> bool {
    &&& forall|i: int| 0 <= i < vs.len() ==> (#[trigger] vs[i]).percentage <= 100
    &&& spec_vesting_percent_sum(vs) <= 100
}

/// Release times are strictly increasing, and the last release does not
/// precede the exit time.
pub open spec fn spec_vesting_times_ok(vs: Seq<OfferingVesting>, exit_time: i64) -> bool {
    &&& forall|i: int|
        0 <= i && i + 1 < vs.len() ==> (#[trigger] vs[i]).release_time < vs[i + 1].release_time
    &&& vs.len() > 0 ==> vs[vs.len() - 1].release_time >= exit_time
}

/// Checks a vesting schedule's percentages: each entry in `[0, 100]` and
/// the sum at most 100.
fn check_vesting_percents(vestings: &Vec<OfferingVesting>) -> (r: bool)
    requires
        vestings@.len() <= MAX_VESTINGS,
    ensures
        r == spec_vesting_percents_ok(vestings@),
{
    let n: usize = vestings.len();
    let mut sum: u32 = 0;
    let mut j: usize = 0;
    while j < n
        invariant
            n == vestings@.len(),
            n <= MAX_VESTINGS,
            j <= n,
            sum == spec_vesting_percent_sum(vestings@.take(j as int)),
            sum <= 255 * j,
            forall|i: int| 0 <= i < j ==> (#[trigger] vestings@[i]).percentage <= 100,
        decreases n - j,
    {
        let entry = vestings[j];
        if entry.percentage > 100 {
            assert(!spec_vesting_percents_ok(vestings@));
            return false;
        }
        sum = sum + (entry.percentage as u32);
        proof {
            let vs = vestings@;
            assert(vs.take(j + 1).drop_last() =~= vs.take(j as int));
            assert(vs.take(j + 1).last() == vs[j as int]);
        }
        j = j + 1;
    }
    proof {
        assert(vestings@.take(n as int) =~= vestings@);
    }
    sum <= 100
}

/// Checks a vesting schedule's release times: strictly increasing, with
/// the last release not before the exit time.
fn check_vesting_times(vestings: &Vec<OfferingVesting>, exit_time: i64) -> (r: bool)
    ensures
        r == spec_vesting_times_ok(vestings@, exit_time),
{
    let n: usize = vestings.len();
    if n == 0 {
        return true;
    }
    let mut j: usize = 0;
    while j + 1 < n
        invariant
            n == vestings@.len(),
            n > 0,
            j < n,
            forall|i: int|
                0 <= i && i + 1 <= j ==> (#[trigger] vestings@[i]).release_time < vestings@[i
                    + 1].release_time,
        decreases n - j,
    {
        if vestings[j].release_time >= vestings[j + 1].release_time {
            return false;
        }
        j = j + 1;
    }
    vestings[n - 1].release_time >= exit_time
}

/// Creates an offering record under a publisher.
///
/// The publisher must be open for offering creation; the window must
/// satisfy `open_time < close_time`; the caps must satisfy
/// `0 < softcap <= hardcap`; the market pool percentage and the vesting
/// percentages must be in range; the vesting release times must be
/// strictly increasing and end no earlier than the exit time.  The new
/// record starts with nothing funded, nothing distributed and no
/// purchasers, and satisfies the offering invariant.
pub fn initiate_offering(
    publisher: &PublisherAccount,
    publisher_address: &Address,
    creator: &Address,
    offering_seed: &Address,
    promoter: &Address,
    funded_mint: &Address,
    offered_mint: &Address,
    softcap: u64,
    hardcap: u64,
    min_funding: u64,
    max_funding: u64,
    offer_quantity: u64,
    market_pool_percentage: u8,
    publish_time: i64,
    open_time: i64,
    close_time: i64,
    exit_time: i64,
    metadata_cid: Vec<u8>,
    vestings: Vec<OfferingVesting>,
) -> (r: Result<OfferingAccount, LedgerError>)
    requires
        publisher_address.wf(),
        creator.wf(),
        offering_seed.wf(),
        promoter.wf(),
        funded_mint.wf(),
        offered_mint.wf(),
    ensures
        match r {
            Ok(offering) => {
                &&& publisher@.live()
                &&& has_flag(publisher@.state, PUBLISHER_IS_OPEN_FOR_OFFERING_CREATION)
                &&& open_time < close_time
                &&& 0 < softcap <= hardcap
                &&& market_pool_percentage <= 100
                &&& vestings@.len() <= MAX_VESTINGS
                &&& spec_vesting_percents_ok(vestings@)
                &&& spec_vesting_times_ok(vestings@, exit_time)
                &&& offering@ == (OfferingView {
                    discriminator: OFFERING_PDA_TYPE,
                    state: OFFERING_IS_INITIALIZED,
                    publisher: publisher_address@,
                    creator: creator@,
                    offering_seed: offering_seed@,
                    promoter: promoter@,
                    funded_mint: funded_mint@,
                    offered_mint: offered_mint@,
                    softcap: softcap,
                    hardcap: hardcap,
                    funded_amount: 0u64,
                    min_funding: min_funding,
                    max_funding: max_funding,
                    offer_quantity: offer_quantity,
                    distributed_quantity: 0u64,
                    market_pool_percentage: market_pool_percentage,
                    publish_time: publish_time,
                    open_time: open_time,
                    close_time: close_time,
                    exit_time: exit_time,
                    num_of_purchasers: 0u64,
                    metadata_cid: metadata_cid@,
                    vestings: vestings@,
                })
                &&& offering@.valid()
            },
            Err(e) => {
                &&& e == LedgerError::InvalidState
                &&& (!publisher@.live() || !has_flag(
                    publisher@.state,
                    PUBLISHER_IS_OPEN_FOR_OFFERING_CREATION,
                ) || !(open_time < close_time) || !(0 < softcap <= hardcap)
                    || market_pool_percentage > 100 || vestings@.len() > MAX_VESTINGS
                    || !spec_vesting_percents_ok(vestings@) || !spec_vesting_times_ok(
                    vestings@,
                    exit_time,
                ))
            },
        },
{
    if !publisher.is_initialized() {
        return Err(LedgerError::InvalidState);
    }
    if !publisher.is_open_for_offering_creation() {
        return Err(LedgerError::InvalidState);
    }
    if !(open_time < close_time) {
        return Err(LedgerError::InvalidState);
    }
    if !(0 < softcap && softcap <= hardcap) {
        return Err(LedgerError::InvalidState);
    }
    if market_pool_percentage > 100 {
        return Err(LedgerError::InvalidState);
    }
    if vestings.len() > MAX_VESTINGS {
        return Err(LedgerError::InvalidState);
    }
    if !check_vesting_percents(&vestings) {
        return Err(LedgerError::InvalidState);
    }
    if !check_vesting_times(&vestings, exit_time) {
        return Err(LedgerError::InvalidState);
    }
    let metadata_len: usize = metadata_cid.len();
    proof {
        assert(metadata_len <= u64::MAX);
        assert(1u8 & 1u8 == 1u8) by (bit_vector);
    }
    Ok(
        OfferingAccount {
            discriminator: OFFERING_PDA_TYPE,
            state: OFFERING_IS_INITIALIZED,
            publisher: publisher_address.dup(),
            creator: creator.dup(),
            offering_seed: offering_seed.dup(),
            promoter: promoter.dup(),
            funded_mint: funded_mint.dup(),
            offered_mint: offered_mint.dup(),
            softcap,
            hardcap,
            funded_amount: 0,
            min_funding,
            max_funding,
            offer_quantity,
            distributed_quantity: 0,
            market_pool_percentage,
            publish_time,
            open_time,
            close_time,
            exit_time,
            num_of_purchasers: 0,
            metadata_cid,
            vestings,
        },
    )
}

} // verus!
