//! Purchase records: one per funder and offering, tracking the quantity
//! bought, the funding paid in, and the quantity distributed so far.
//!
//! Fixed-length record: discriminator, state, funder address, offering
//! address, then three unsigned 64-bit quantities.

use vstd::prelude::*;
use crate::addr::{Address, ADDRESS_LEN};
use crate::constant::{has_flag, flag_set, CLOSED_PDA_TYPE, PURCHASE_IS_INITIALIZED, PURCHASE_PDA_TYPE};
use crate::encoding::{push_bytes, push_u64, push_u8, read_bytes_at, read_u64_at, read_u8_at};
use crate::error::LedgerError;
use vstd::bytes::spec_u64_to_le_bytes;
use vstd::bytes::spec_u64_from_le_bytes;
use vstd::bytes::lemma_auto_spec_u64_to_from_le_bytes;

verus! {

/// Byte length of a packed purchase record.
pub const PURCHASE_ACCOUNT_LEN: usize = 90;

/// A purchase entity as held in memory.
#[derive(Debug)]
pub struct PurchaseAccount {
    pub discriminator: u8,
    pub state: u8,
    pub funder: Address,
    pub offering: Address,
    /// Quantity of the offered token bought by this funder.
    pub quantity: u64,
    /// Funding paid in by this funder; zeroed again once refunded.
    pub funding_amount: u64,
    /// Quantity already released to this funder across past vestings.
    pub distributed: u64,
}

/// The mathematical image of a purchase record.
pub struct PurchaseView {
    pub discriminator: u8,
    pub state: u8,
    pub funder: Seq<u8>,
    pub offering: Seq<u8>,
    pub quantity: u64,
    pub funding_amount: u64,
    pub distributed: u64,
}

impl View for PurchaseAccount {
    type V = PurchaseView;

    open spec fn view(&self) -> PurchaseView {
        PurchaseView {
            discriminator: self.discriminator,
            state: self.state,
            funder: self.funder@,
            offering: self.offering@,
            quantity: self.quantity,
            funding_amount: self.funding_amount,
            distributed: self.distributed,
        }
    }
}

impl PurchaseView {
    /// The record carries the purchase discriminator and the initialized
    /// state bit: what a live record always shows.
    pub open spec fn live(self) -> bool {
        &&& self.discriminator == PURCHASE_PDA_TYPE
        &&& has_flag(self.state, PURCHASE_IS_INITIALIZED)
    }

    /// Both address fields hold exactly 32 bytes.
    pub open spec fn addrs_wf(self) -> bool {
        &&& self.funder.len() == ADDRESS_LEN
        &&& self.offering.len() == ADDRESS_LEN
    }

    /// Well-formedness: canonical discriminator, the initialized bit set,
    /// both addresses exactly 32 bytes, and no more distributed than bought.
    pub open spec fn wf(self) -> bool {
        &&& self.live()
        &&& self.addrs_wf()
        &&& self.distributed <= self.quantity
    }
}

/// Canonical packed bytes of a purchase record; the discriminator and the
/// initialized bit are always re-asserted.
pub open spec fn spec_pack_purchase(v: PurchaseView) -> Seq<u8> {
    seq![PURCHASE_PDA_TYPE, v.state | PURCHASE_IS_INITIALIZED] + v.funder + v.offering
        + spec_u64_to_le_bytes(v.quantity) + spec_u64_to_le_bytes(v.funding_amount)
        + spec_u64_to_le_bytes(v.distributed)
}

/// Decoding of a purchase record.
pub open spec fn spec_unpack_purchase(b: Seq<u8>) -> Option<PurchaseView> {
    if b.len() == PURCHASE_ACCOUNT_LEN && b[0] == PURCHASE_PDA_TYPE {
        Some(
            PurchaseView {
                discriminator: b[0],
                state: b[1],
                funder: b.subrange(2, 34),
                offering: b.subrange(34, 66),
                quantity: spec_u64_from_le_bytes(b.subrange(66, 74)),
                funding_amount: spec_u64_from_le_bytes(b.subrange(74, 82)),
                distributed: spec_u64_from_le_bytes(b.subrange(82, 90)),
            },
        )
    } else {
        None
    }
}

/// Unpacking a packed well-formed purchase record gives it back.
pub proof fn lemma_purchase_round_trip(v: PurchaseView)
    requires
        v.wf(),
    ensures
        spec_unpack_purchase(spec_pack_purchase(v)) == Some(v),
{
    lemma_auto_spec_u64_to_from_le_bytes();
    let b = spec_pack_purchase(v);
    assert(b.len() == PURCHASE_ACCOUNT_LEN);
    let st = v.state;
    assert(st & 0x01u8 == 0x01u8 ==> st | 0x01u8 == st) by (bit_vector);
    assert(b.subrange(2, 34) =~= v.funder);
    assert(b.subrange(34, 66) =~= v.offering);
    assert(b.subrange(66, 74) =~= spec_u64_to_le_bytes(v.quantity));
    assert(b.subrange(74, 82) =~= spec_u64_to_le_bytes(v.funding_amount));
    assert(b.subrange(82, 90) =~= spec_u64_to_le_bytes(v.distributed));
}

impl PurchaseAccount {
    /// A record is initialized when it carries the purchase discriminator
    /// and the initialized state bit.
    pub fn is_initialized(&self) -> (r: bool)
        ensures
            r == (self@.discriminator == PURCHASE_PDA_TYPE && has_flag(
                self@.state,
                PURCHASE_IS_INITIALIZED,
            )),
    {
        self.discriminator == PURCHASE_PDA_TYPE && flag_set(self.state, PURCHASE_IS_INITIALIZED)
    }

    /// Decodes a purchase record.  Fails, and never panics, on a buffer of
    /// the wrong length or with the wrong discriminator; a record whose
    /// first byte carries the reserved closed tag is reported as closed.
    pub fn unpack_from_slice(src: &[u8]) -> (r: Result<PurchaseAccount, LedgerError>)
        ensures
            match r {
                Ok(rec) => spec_unpack_purchase(src@) == Some(rec@) && rec@.addrs_wf()
                    && rec@.discriminator == PURCHASE_PDA_TYPE,
                Err(e) => spec_unpack_purchase(src@) is None && e == (if src@.len()
                    == PURCHASE_ACCOUNT_LEN && src@[0] == CLOSED_PDA_TYPE {
                    LedgerError::AccountClosed
                } else {
                    LedgerError::MalformedRecord
                }),
            },
    {
        let n: usize = src.len();
        if n != PURCHASE_ACCOUNT_LEN {
            return Err(LedgerError::MalformedRecord);
        }
        let discriminator = read_u8_at(src, 0);
        if discriminator == CLOSED_PDA_TYPE {
            return Err(LedgerError::AccountClosed);
        }
        if discriminator != PURCHASE_PDA_TYPE {
            return Err(LedgerError::MalformedRecord);
        }
        let rec = PurchaseAccount {
            discriminator,
            state: read_u8_at(src, 1),
            funder: Address::from_bytes(read_bytes_at(src, 2, 32)),
            offering: Address::from_bytes(read_bytes_at(src, 34, 32)),
            quantity: read_u64_at(src, 66),
            funding_amount: read_u64_at(src, 74),
            distributed: read_u64_at(src, 82),
        };
        Ok(rec)
    }

    /// Canonical packed bytes of this record.
    pub fn pack(&self) -> (out: Vec<u8>)
        ensures
            out@ == spec_pack_purchase(self@),
    {
        let mut out: Vec<u8> = Vec::new();
        push_u8(&mut out, PURCHASE_PDA_TYPE);
        push_u8(&mut out, self.state | PURCHASE_IS_INITIALIZED);
        push_bytes(&mut out, &self.funder.bytes);
        push_bytes(&mut out, &self.offering.bytes);
        push_u64(&mut out, self.quantity);
        push_u64(&mut out, self.funding_amount);
        push_u64(&mut out, self.distributed);
        proof {
            assert(out@ =~= spec_pack_purchase(self@));
        }
        out
    }

    /// Encodes this record into pre-sized storage.  The destination must
    /// have exactly the packed length; a wrong size is reported and the
    /// destination is left untouched.
    pub fn pack_into_slice(&self, dst: &mut Vec<u8>) -> (r: Result<(), LedgerError>)
        ensures
            match r {
                Ok(_) => final(dst)@ == spec_pack_purchase(self@) && old(dst)@.len()
                    == spec_pack_purchase(self@).len(),
                Err(e) => final(dst)@ == old(dst)@ && e == LedgerError::MalformedRecord && old(
                    dst,
                )@.len() != spec_pack_purchase(self@).len(),
            },
    {
        let mut packed = self.pack();
        if dst.len() != packed.len() {
            return Err(LedgerError::MalformedRecord);
        }
        dst.clear();
        dst.append(&mut packed);
        proof {
            assert(dst@ =~= spec_pack_purchase(self@));
        }
        Ok(())
    }
}

} // verus!
