//! Publisher-token records: bind a token to a publisher, with an
//! offer-creation price and independent allow-flags.
//!
//! Fixed-length record: discriminator, state, publisher address, token
//! identifier, and an unsigned 64-bit offer-creation price.

use vstd::prelude::*;
use crate::addr::{Address, ADDRESS_LEN};
use crate::constant::{
    has_flag, flag_set, ALLOW_TOKEN_AS_FUNDING, ALLOW_TOKEN_AS_OFFERS,
    ALLOW_TOKEN_AS_OFFER_CREATION_PAYMENT, CLOSED_PDA_TYPE, PUBLISHER_TOKEN_IS_DISABLED,
    PUBLISHER_TOKEN_IS_INITIALIZED, PUBLISHER_TOKEN_PDA_TYPE,
};
use crate::encoding::{push_bytes, push_u64, push_u8, read_bytes_at, read_u64_at, read_u8_at};
use crate::error::LedgerError;
use vstd::bytes::spec_u64_to_le_bytes;
use vstd::bytes::spec_u64_from_le_bytes;
use vstd::bytes::lemma_auto_spec_u64_to_from_le_bytes;

verus! {

/// Byte length of a packed publisher-token record.
pub const PUBLISHER_TOKEN_ACCOUNT_LEN: usize = 74;

/// A publisher-token entity as held in memory.
#[derive(Debug)]
pub struct PublisherTokenAccount {
    pub discriminator: u8,
    pub state: u8,
    pub publisher: Address,
    pub mint: Address,
    pub offer_creation_price: u64,
}

/// The mathematical image of a publisher-token record.
pub struct PublisherTokenView {
    pub discriminator: u8,
    pub state: u8,
    pub publisher: Seq<u8>,
    pub mint: Seq<u8>,
    pub offer_creation_price: u64,
}

impl View for PublisherTokenAccount {
    type V = PublisherTokenView;

    open spec fn view(&self) -> PublisherTokenView {
        PublisherTokenView {
            discriminator: self.discriminator,
            state: self.state,
            publisher: self.publisher@,
            mint: self.mint@,
            offer_creation_price: self.offer_creation_price,
        }
    }
}

impl PublisherTokenView {
    /// The record carries the publisher-token discriminator and the
    /// initialized state bit: what a live record always shows.
    pub open spec fn live(self) -> bool {
        &&& self.discriminator == PUBLISHER_TOKEN_PDA_TYPE
        &&& has_flag(self.state, PUBLISHER_TOKEN_IS_INITIALIZED)
    }

    /// Both address fields hold exactly 32 bytes.
    pub open spec fn addrs_wf(self) -> bool {
        &&& self.publisher.len() == ADDRESS_LEN
        &&& self.mint.len() == ADDRESS_LEN
    }

    /// Well-formedness: canonical discriminator, the initialized bit set,
    /// and both addresses exactly 32 bytes.
    pub open spec fn wf(self) -> bool {
        &&& self.live()
        &&& self.addrs_wf()
    }
}

/// Canonical packed bytes of a publisher-token record; the discriminator
/// and the initialized bit are always re-asserted.
pub open spec fn spec_pack_publisher_token(v: PublisherTokenView) -> Seq<u8> {
    seq![PUBLISHER_TOKEN_PDA_TYPE, v.state | PUBLISHER_TOKEN_IS_INITIALIZED] + v.publisher + v.mint
        + spec_u64_to_le_bytes(v.offer_creation_price)
}

/// Decoding of a publisher-token record.
pub open spec fn spec_unpack_publisher_token(b: Seq<u8>) -> Option<PublisherTokenView> {
    if b.len() == PUBLISHER_TOKEN_ACCOUNT_LEN && b[0] == PUBLISHER_TOKEN_PDA_TYPE {
        Some(
            PublisherTokenView {
                discriminator: b[0],
                state: b[1],
                publisher: b.subrange(2, 34),
                mint: b.subrange(34, 66),
                offer_creation_price: spec_u64_from_le_bytes(b.subrange(66, 74)),
            },
        )
    } else {
        None
    }
}

/// Unpacking a packed well-formed publisher-token record gives it back.
pub proof fn lemma_publisher_token_round_trip(v: PublisherTokenView)
    requires
        v.wf(),
    ensures
        spec_unpack_publisher_token(spec_pack_publisher_token(v)) == Some(v),
{
    lemma_auto_spec_u64_to_from_le_bytes();
    let b = spec_pack_publisher_token(v);
    assert(b.len() == PUBLISHER_TOKEN_ACCOUNT_LEN);
    let st = v.state;
    assert(st & 0x01u8 == 0x01u8 ==> st | 0x01u8 == st) by (bit_vector);
    assert(b.subrange(2, 34) =~= v.publisher);
    assert(b.subrange(34, 66) =~= v.mint);
    assert(b.subrange(66, 74) =~= spec_u64_to_le_bytes(v.offer_creation_price));
}

impl PublisherTokenAccount {
    /// A record is initialized when it carries the publisher-token
    /// discriminator and the initialized state bit.
    pub fn is_initialized(&self) -> (r: bool)
        ensures
            r == (self@.discriminator == PUBLISHER_TOKEN_PDA_TYPE && has_flag(
                self@.state,
                PUBLISHER_TOKEN_IS_INITIALIZED,
            )),
    {
        self.discriminator == PUBLISHER_TOKEN_PDA_TYPE && flag_set(
            self.state,
            PUBLISHER_TOKEN_IS_INITIALIZED,
        )
    }

    /// Whether the token may pay for offer creation.
    pub fn allows_offer_creation_payment(&self) -> (r: bool)
        ensures
            r == has_flag(self@.state, ALLOW_TOKEN_AS_OFFER_CREATION_PAYMENT),
    {
        flag_set(self.state, ALLOW_TOKEN_AS_OFFER_CREATION_PAYMENT)
    }

    /// Whether the token may be offered.
    pub fn allows_offers(&self) -> (r: bool)
        ensures
            r == has_flag(self@.state, ALLOW_TOKEN_AS_OFFERS),
    {
        flag_set(self.state, ALLOW_TOKEN_AS_OFFERS)
    }

    /// Whether the token may fund offerings.
    pub fn allows_funding(&self) -> (r: bool)
        ensures
            r == has_flag(self@.state, ALLOW_TOKEN_AS_FUNDING),
    {
        flag_set(self.state, ALLOW_TOKEN_AS_FUNDING)
    }

    /// Whether the token is disabled for every use.
    pub fn is_disabled(&self) -> (r: bool)
        ensures
            r == has_flag(self@.state, PUBLISHER_TOKEN_IS_DISABLED),
    {
        flag_set(self.state, PUBLISHER_TOKEN_IS_DISABLED)
    }

    /// Decodes a publisher-token record.  Fails, and never panics, on a
    /// buffer of the wrong length or with the wrong discriminator; a
    /// record whose first byte carries the reserved closed tag is reported
    /// as closed.
    pub fn unpack_from_slice(src: &[u8]) -> (r: Result<PublisherTokenAccount, LedgerError>)
        ensures
            match r {
                Ok(rec) => spec_unpack_publisher_token(src@) == Some(rec@) && rec@.addrs_wf()
                    && rec@.discriminator == PUBLISHER_TOKEN_PDA_TYPE,
                Err(e) => spec_unpack_publisher_token(src@) is None && e == (if src@.len()
                    == PUBLISHER_TOKEN_ACCOUNT_LEN && src@[0] == CLOSED_PDA_TYPE {
                    LedgerError::AccountClosed
                } else {
                    LedgerError::MalformedRecord
                }),
            },
    {
        let n: usize = src.len();
        if n != PUBLISHER_TOKEN_ACCOUNT_LEN {
            return Err(LedgerError::MalformedRecord);
        }
        let discriminator = read_u8_at(src, 0);
        if discriminator == CLOSED_PDA_TYPE {
            return Err(LedgerError::AccountClosed);
        }
        if discriminator != PUBLISHER_TOKEN_PDA_TYPE {
            return Err(LedgerError::MalformedRecord);
        }
        let rec = PublisherTokenAccount {
            discriminator,
            state: read_u8_at(src, 1),
            publisher: Address::from_bytes(read_bytes_at(src, 2, 32)),
            mint: Address::from_bytes(read_bytes_at(src, 34, 32)),
            offer_creation_price: read_u64_at(src, 66),
        };
        Ok(rec)
    }

    /// Canonical packed bytes of this record.
    pub fn pack(&self) -> (out: Vec<u8>)
        ensures
            out@ == spec_pack_publisher_token(self@),
    {
        let mut out: Vec<u8> = Vec::new();
        push_u8(&mut out, PUBLISHER_TOKEN_PDA_TYPE);
        push_u8(&mut out, self.state | PUBLISHER_TOKEN_IS_INITIALIZED);
        push_bytes(&mut out, &self.publisher.bytes);
        push_bytes(&mut out, &self.mint.bytes);
        push_u64(&mut out, self.offer_creation_price);
        proof {
            assert(out@ =~= spec_pack_publisher_token(self@));
        }
        out
    }

    /// Encodes this record into pre-sized storage.  The destination must
    /// have exactly the packed length; a wrong size is reported and the
    /// destination is left untouched.
    pub fn pack_into_slice(&self, dst: &mut Vec<u8>) -> (r: Result<(), LedgerError>)
        ensures
            match r {
                Ok(_) => final(dst)@ == spec_pack_publisher_token(self@) && old(dst)@.len()
                    == spec_pack_publisher_token(self@).len(),
                Err(e) => final(dst)@ == old(dst)@ && e == LedgerError::MalformedRecord && old(
                    dst,
                )@.len() != spec_pack_publisher_token(self@).len(),
            },
    {
        let mut packed = self.pack();
        if dst.len() != packed.len() {
            return Err(LedgerError::MalformedRecord);
        }
        dst.clear();
        dst.append(&mut packed);
        proof {
            assert(dst@ =~= spec_pack_publisher_token(self@));
        }
        Ok(())
    }
}

} // verus!
