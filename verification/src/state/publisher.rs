//! Publisher records: the root entity that owns offerings and tokens.
//!
//! A publisher record is fixed-length: a discriminator byte, a state byte,
//! and five 32-byte addresses (creator, publisher-seed, update authority,
//! transfer authority, approval authority).

use vstd::prelude::*;
use crate::addr::{Address, ADDRESS_LEN};
use crate::constant::{
    has_flag, flag_set, CLOSED_PDA_TYPE, PUBLISHER_IS_INITIALIZED,
    PUBLISHER_IS_OPEN_FOR_OFFERING_CREATION, PUBLISHER_PDA_TYPE,
};
use crate::encoding::{push_bytes, push_u8, read_bytes_at, read_u8_at};
use crate::error::LedgerError;

verus! {

/// Byte length of a packed publisher record.
pub const PUBLISHER_ACCOUNT_LEN: usize = 162;

/// A publisher entity as held in memory.
#[derive(Debug)]
pub struct PublisherAccount {
    pub discriminator: u8,
    pub state: u8,
    pub creator: Address,
    /// Opaque 32-byte identifier chosen by the creator; immutable after creation.
    pub publisher_seed: Address,
    pub update_authority: Address,
    /// During an authority handoff this field holds the proposed new
    /// authority; the proposed authority finalizes the transfer by claiming.
    pub transfer_authority: Address,
    pub approval_authority: Address,
}

/// The mathematical image of a publisher record.
pub struct PublisherView {
    pub discriminator: u8,
    pub state: u8,
    pub creator: Seq<u8>,
    pub publisher_seed: Seq<u8>,
    pub update_authority: Seq<u8>,
    pub transfer_authority: Seq<u8>,
    pub approval_authority: Seq<u8>,
}

impl View for PublisherAccount {
    type V = PublisherView;

    open spec fn view(&self) -> PublisherView {
        PublisherView {
            discriminator: self.discriminator,
            state: self.state,
            creator: self.creator@,
            publisher_seed: self.publisher_seed@,
            update_authority: self.update_authority@,
            transfer_authority: self.transfer_authority@,
            approval_authority: self.approval_authority@,
        }
    }
}

impl PublisherView {
    /// The record carries the publisher discriminator and the
    /// initialized state bit: what a live record always shows.
    pub open spec fn live(self) -> bool {
        &&& self.discriminator == PUBLISHER_PDA_TYPE
        &&& has_flag(self.state, PUBLISHER_IS_INITIALIZED)
    }

    /// Every address field holds exactly 32 bytes.
    pub open spec fn addrs_wf(self) -> bool {
        &&& self.creator.len() == ADDRESS_LEN
        &&& self.publisher_seed.len() == ADDRESS_LEN
        &&& self.update_authority.len() == ADDRESS_LEN
        &&& self.transfer_authority.len() == ADDRESS_LEN
        &&& self.approval_authority.len() == ADDRESS_LEN
    }

    /// Well-formedness: canonical discriminator, the initialized bit set,
    /// and every address exactly 32 bytes.
    pub open spec fn wf(self) -> bool {
        &&& self.live()
        &&& self.addrs_wf()
    }
}

/// Canonical packed bytes of a publisher record.  The discriminator is
/// always written as the publisher tag and the initialized bit is always
/// forced on, so no code path can persist an uninitialized-looking record.
pub open spec fn spec_pack_publisher(v: PublisherView) -> Seq<u8> {
    seq![PUBLISHER_PDA_TYPE, v.state | PUBLISHER_IS_INITIALIZED] + v.creator + v.publisher_seed
        + v.update_authority + v.transfer_authority + v.approval_authority
}

/// Decoding of a publisher record: defined exactly on buffers of the fixed
/// length that carry the publisher discriminator.
pub open spec fn spec_unpack_publisher(b: Seq<u8>) -> Option<PublisherView> {
    if b.len() == PUBLISHER_ACCOUNT_LEN && b[0] == PUBLISHER_PDA_TYPE {
        Some(
            PublisherView {
                discriminator: b[0],
                state: b[1],
                creator: b.subrange(2, 34),
                publisher_seed: b.subrange(34, 66),
                update_authority: b.subrange(66, 98),
                transfer_authority: b.subrange(98, 130),
                approval_authority: b.subrange(130, 162),
            },
        )
    } else {
        None
    }
}

/// Unpacking a packed well-formed publisher record gives the record back.
pub proof fn lemma_publisher_round_trip(v: PublisherView)
    requires
        v.wf(),
    ensures
        spec_unpack_publisher(spec_pack_publisher(v)) == Some(v),
{
    let b = spec_pack_publisher(v);
    assert(b.len() == PUBLISHER_ACCOUNT_LEN);
    let st = v.state;
    assert(st & 0x01u8 == 0x01u8 ==> st | 0x01u8 == st) by (bit_vector);
    assert(b.subrange(2, 34) =~= v.creator);
    assert(b.subrange(34, 66) =~= v.publisher_seed);
    assert(b.subrange(66, 98) =~= v.update_authority);
    assert(b.subrange(98, 130) =~= v.transfer_authority);
    assert(b.subrange(130, 162) =~= v.approval_authority);
}

impl PublisherAccount {
    /// A record is initialized when it carries the publisher discriminator
    /// and the initialized state bit.
    pub fn is_initialized(&self) -> (r: bool)
        ensures
            r == (self@.discriminator == PUBLISHER_PDA_TYPE && has_flag(
                self@.state,
                PUBLISHER_IS_INITIALIZED,
            )),
    {
        self.discriminator == PUBLISHER_PDA_TYPE && flag_set(self.state, PUBLISHER_IS_INITIALIZED)
    }

    /// Whether the publisher currently accepts new offerings.
    pub fn is_open_for_offering_creation(&self) -> (r: bool)
        ensures
            r == has_flag(self@.state, PUBLISHER_IS_OPEN_FOR_OFFERING_CREATION),
    {
        flag_set(self.state, PUBLISHER_IS_OPEN_FOR_OFFERING_CREATION)
    }

    /// Decodes a publisher record.  Fails, and never panics, on a buffer
    /// of the wrong length or with the wrong discriminator; a record whose
    /// first byte carries the reserved closed tag is reported as closed.
    pub fn unpack_from_slice(src: &[u8]) -> (r: Result<PublisherAccount, LedgerError>)
        ensures
            match r {
                Ok(rec) => spec_unpack_publisher(src@) == Some(rec@) && rec@.addrs_wf()
                    && rec@.discriminator == PUBLISHER_PDA_TYPE,
                Err(e) => spec_unpack_publisher(src@) is None && e == (if src@.len()
                    == PUBLISHER_ACCOUNT_LEN && src@[0] == CLOSED_PDA_TYPE {
                    LedgerError::AccountClosed
                } else {
                    LedgerError::MalformedRecord
                }),
            },
    {
        let n: usize = src.len();
        if n != PUBLISHER_ACCOUNT_LEN {
            return Err(LedgerError::MalformedRecord);
        }
        let discriminator = read_u8_at(src, 0);
        if discriminator == CLOSED_PDA_TYPE {
            return Err(LedgerError::AccountClosed);
        }
        if discriminator != PUBLISHER_PDA_TYPE {
            return Err(LedgerError::MalformedRecord);
        }
        let rec = PublisherAccount {
            discriminator,
            state: read_u8_at(src, 1),
            creator: Address::from_bytes(read_bytes_at(src, 2, 32)),
            publisher_seed: Address::from_bytes(read_bytes_at(src, 34, 32)),
            update_authority: Address::from_bytes(read_bytes_at(src, 66, 32)),
            transfer_authority: Address::from_bytes(read_bytes_at(src, 98, 32)),
            approval_authority: Address::from_bytes(read_bytes_at(src, 130, 32)),
        };
        Ok(rec)
    }

    /// Canonical packed bytes of this record.
    pub fn pack(&self) -> (out: Vec<u8>)
        ensures
            out@ == spec_pack_publisher(self@),
    {
        let mut out: Vec<u8> = Vec::new();
        push_u8(&mut out, PUBLISHER_PDA_TYPE);
        push_u8(&mut out, self.state | PUBLISHER_IS_INITIALIZED);
        push_bytes(&mut out, &self.creator.bytes);
        push_bytes(&mut out, &self.publisher_seed.bytes);
        push_bytes(&mut out, &self.update_authority.bytes);
        push_bytes(&mut out, &self.transfer_authority.bytes);
        push_bytes(&mut out, &self.approval_authority.bytes);
        proof {
            assert(out@ =~= spec_pack_publisher(self@));
        }
        out
    }

    /// Encodes this record into pre-sized storage.  The destination must
    /// have exactly the packed length; a wrong size is reported and the
    /// destination is left untouched.
    pub fn pack_into_slice(&self, dst: &mut Vec<u8>) -> (r: Result<(), LedgerError>)
        ensures
            match r {
                Ok(_) => final(dst)@ == spec_pack_publisher(self@) && old(dst)@.len()
                    == spec_pack_publisher(self@).len(),
                Err(e) => final(dst)@ == old(dst)@ && e == LedgerError::MalformedRecord && old(
                    dst,
                )@.len() != spec_pack_publisher(self@).len(),
            },
    {
        let mut packed = self.pack();
        if dst.len() != packed.len() {
            return Err(LedgerError::MalformedRecord);
        }
        dst.clear();
        dst.append(&mut packed);
        proof {
            assert(dst@ =~= spec_pack_publisher(self@));
        }
        Ok(())
    }
}

} // verus!
