//! Offering records: the variable-length fundraising entity.
//!
//! An offering record encodes its fixed fields first, then an 8-byte
//! little-endian length prefix for the metadata blob followed by the raw
//! bytes, then a 1-byte count followed by that many fixed-width vesting
//! entries (8-byte signed timestamp + 1-byte percentage).  Decoding
//! consumes exactly the declared lengths; any shortfall or surplus is a
//! decode error, never a panic or a partial object.

use vstd::prelude::*;
use crate::addr::{Address, ADDRESS_LEN};
use crate::constant::{
    has_flag, flag_set, CLOSED_PDA_TYPE, OFFERING_HAS_SOLD_OUT, OFFERING_IS_INITIALIZED,
    OFFERING_PDA_TYPE,
};
use crate::encoding::{
    push_bytes, push_i64, push_u64, push_u8, read_bytes_at, read_i64_at, read_u64_at, read_u8_at,
    spec_i64_from_le_bytes, spec_i64_to_le_bytes, lemma_auto_i64_le_bytes,
};
use crate::error::LedgerError;
use vstd::bytes::spec_u64_to_le_bytes;
use vstd::bytes::spec_u64_from_le_bytes;
use vstd::bytes::lemma_auto_spec_u64_to_from_le_bytes;

verus! {

/// Byte length of the fixed part of a packed offering record, up to and
/// including the metadata length prefix and the vesting count.
pub const FIXED_OFFERING_ACCOUNT_DATA_LEN: usize = 300;

/// Largest number of vesting entries a record can declare (1-byte count).
pub const MAX_VESTINGS: usize = 255;

/// One vesting entry: when a release happens and which percentage of the
/// purchased quantity it releases.  The percentage must be between 0 and
/// 100, and the percentages of an offering's entries sum to at most 100.
#[derive(Clone, Copy, Debug, PartialEq, Eq, Structural)]
pub struct OfferingVesting {
    pub release_time: i64,
    pub percentage: u8,
}

/// An offering entity as held in memory.
#[derive(Debug)]
pub struct OfferingAccount {
    pub discriminator: u8,
    pub state: u8,
    pub publisher: Address,
    pub creator: Address,
    pub offering_seed: Address,
    pub promoter: Address,
    /// Token requested from funders.
    pub funded_mint: Address,
    /// Token offered to funders.
    pub offered_mint: Address,
    /// Lower funding bound for the offering to proceed.
    pub softcap: u64,
    /// Upper bound of funding the offering will accept.
    pub hardcap: u64,
    /// Funding collected so far.
    pub funded_amount: u64,
    pub min_funding: u64,
    pub max_funding: u64,
    /// Total quantity of the offered token reserved for distribution.
    pub offer_quantity: u64,
    /// Quantity distributed so far.
    pub distributed_quantity: u64,
    pub market_pool_percentage: u8,
    pub publish_time: i64,
    pub open_time: i64,
    pub close_time: i64,
    pub exit_time: i64,
    pub num_of_purchasers: u64,
    /// Content-addressed metadata reference, opaque, length-prefixed.
    pub metadata_cid: Vec<u8>,
    pub vestings: Vec<OfferingVesting>,
}

/// The mathematical image of an offering record.
pub struct OfferingView {
    pub discriminator: u8,
    pub state: u8,
    pub publisher: Seq<u8>,
    pub creator: Seq<u8>,
    pub offering_seed: Seq<u8>,
    pub promoter: Seq<u8>,
    pub funded_mint: Seq<u8>,
    pub offered_mint: Seq<u8>,
    pub softcap: u64,
    pub hardcap: u64,
    pub funded_amount: u64,
    pub min_funding: u64,
    pub max_funding: u64,
    pub offer_quantity: u64,
    pub distributed_quantity: u64,
    pub market_pool_percentage: u8,
    pub publish_time: i64,
    pub open_time: i64,
    pub close_time: i64,
    pub exit_time: i64,
    pub num_of_purchasers: u64,
    pub metadata_cid: Seq<u8>,
    pub vestings: Seq<OfferingVesting>,
}

impl View for OfferingAccount {
    type V = OfferingView;

    open spec fn view(&self) -> OfferingView {
        OfferingView {
            discriminator: self.discriminator,
            state: self.state,
            publisher: self.publisher@,
            creator: self.creator@,
            offering_seed: self.offering_seed@,
            promoter: self.promoter@,
            funded_mint: self.funded_mint@,
            offered_mint: self.offered_mint@,
            softcap: self.softcap,
            hardcap: self.hardcap,
            funded_amount: self.funded_amount,
            min_funding: self.min_funding,
            max_funding: self.max_funding,
            offer_quantity: self.offer_quantity,
            distributed_quantity: self.distributed_quantity,
            market_pool_percentage: self.market_pool_percentage,
            publish_time: self.publish_time,
            open_time: self.open_time,
            close_time: self.close_time,
            exit_time: self.exit_time,
            num_of_purchasers: self.num_of_purchasers,
            metadata_cid: self.metadata_cid@,
            vestings: self.vestings@,
        }
    }
}

/// Sum of the vesting percentages of a schedule.
pub open spec fn spec_vesting_percent_sum(vs: Seq<OfferingVesting>) -> int
    decreases vs.len(),
{
    if vs.len() == 0 {
        0
    } else {
        spec_vesting_percent_sum(vs.drop_last()) + vs.last().percentage
    }
}

impl OfferingView {
    /// The record carries the offering discriminator and the initialized
    /// state bit: what a live record always shows.
    pub open spec fn live(self) -> bool {
        &&& self.discriminator == OFFERING_PDA_TYPE
        &&& has_flag(self.state, OFFERING_IS_INITIALIZED)
    }

    /// Every address field holds exactly 32 bytes.
    pub open spec fn addrs_wf(self) -> bool {
        &&& self.publisher.len() == ADDRESS_LEN
        &&& self.creator.len() == ADDRESS_LEN
        &&& self.offering_seed.len() == ADDRESS_LEN
        &&& self.promoter.len() == ADDRESS_LEN
        &&& self.funded_mint.len() == ADDRESS_LEN
        &&& self.offered_mint.len() == ADDRESS_LEN
    }

    /// Codec well-formedness: canonical discriminator, the initialized bit
    /// set, every address exactly 32 bytes, and declared-length fields
    /// representable in their fixed-width prefixes.
    pub open spec fn wf(self) -> bool {
        &&& self.live()
        &&& self.addrs_wf()
        &&& self.metadata_cid.len() <= u64::MAX
        &&& self.vestings.len() <= MAX_VESTINGS
    }

    /// Business invariant of a live offering, preserved by every operation:
    /// the funding never exceeds the hardcap, the distribution never
    /// exceeds the reserved quantity, and the percentages stay in range.
    pub open spec fn valid(self) -> bool {
        &&& self.wf()
        &&& self.funded_amount <= self.hardcap
        &&& self.distributed_quantity <= self.offer_quantity
        &&& spec_vesting_percent_sum(self.vestings) <= 100
        &&& self.market_pool_percentage <= 100
    }
}

/// Packed bytes of a vesting schedule: 9 bytes per entry, in order.
pub open spec fn spec_pack_vestings(vs: Seq<OfferingVesting>) -> Seq<u8>
    decreases vs.len(),
{
    if vs.len() == 0 {
        Seq::empty()
    } else {
        spec_pack_vestings(vs.drop_last()) + spec_i64_to_le_bytes(vs.last().release_time)
            + seq![vs.last().percentage]
    }
}

/// A packed vesting schedule takes exactly 9 bytes per entry.
pub proof fn lemma_spec_pack_vestings_len(vs: Seq<OfferingVesting>)
    ensures
        spec_pack_vestings(vs).len() == 9 * vs.len(),
    decreases vs.len(),
{
    lemma_auto_i64_le_bytes();
    if vs.len() > 0 {
        lemma_spec_pack_vestings_len(vs.drop_last());
    }
}

/// The bytes of the `j`-th entry of a packed vesting schedule.
pub proof fn lemma_vesting_extract(vs: Seq<OfferingVesting>, j: int)
    requires
        0 <= j < vs.len(),
    ensures
        spec_pack_vestings(vs).subrange(9 * j, 9 * j + 8) == spec_i64_to_le_bytes(
            vs[j].release_time,
        ),
        spec_pack_vestings(vs)[9 * j + 8] == vs[j].percentage,
    decreases vs.len(),
{
    lemma_auto_i64_le_bytes();
    lemma_spec_pack_vestings_len(vs);
    lemma_spec_pack_vestings_len(vs.drop_last());
    if j == vs.len() - 1 {
        assert(spec_pack_vestings(vs).subrange(9 * j, 9 * j + 8) =~= spec_i64_to_le_bytes(
            vs[j].release_time,
        ));
    } else {
        lemma_vesting_extract(vs.drop_last(), j);
        assert(spec_pack_vestings(vs).subrange(9 * j, 9 * j + 8) =~= spec_pack_vestings(
            vs.drop_last(),
        ).subrange(9 * j, 9 * j + 8));
        assert(vs.drop_last()[j] == vs[j]);
    }
}

/// Canonical packed bytes of an offering record.  The discriminator is
/// always written as the offering tag and the initialized bit is always
/// forced on.
pub open spec fn spec_pack_offering(v: OfferingView) -> Seq<u8> {
    seq![OFFERING_PDA_TYPE, v.state | OFFERING_IS_INITIALIZED] + v.publisher + v.creator
        + v.offering_seed + v.promoter + v.funded_mint + v.offered_mint + spec_u64_to_le_bytes(
        v.softcap,
    ) + spec_u64_to_le_bytes(v.hardcap) + spec_u64_to_le_bytes(v.funded_amount)
        + spec_u64_to_le_bytes(v.min_funding) + spec_u64_to_le_bytes(v.max_funding)
        + spec_u64_to_le_bytes(v.offer_quantity) + spec_u64_to_le_bytes(v.distributed_quantity)
        + seq![v.market_pool_percentage] + spec_i64_to_le_bytes(v.publish_time)
        + spec_i64_to_le_bytes(v.open_time) + spec_i64_to_le_bytes(v.close_time)
        + spec_i64_to_le_bytes(v.exit_time) + spec_u64_to_le_bytes(v.num_of_purchasers)
        + spec_u64_to_le_bytes(v.metadata_cid.len() as u64) + seq![v.vestings.len() as u8]
        + v.metadata_cid + spec_pack_vestings(v.vestings)
}

/// Decoding of an offering record: defined exactly on buffers that carry
/// the offering discriminator and whose length matches the declared
/// metadata length and vesting count.
pub open spec fn spec_unpack_offering(b: Seq<u8>) -> Option<OfferingView> {
    if b.len() < FIXED_OFFERING_ACCOUNT_DATA_LEN {
        None
    } else {
        let mlen = spec_u64_from_le_bytes(b.subrange(291, 299)) as int;
        let nv = b[299] as int;
        if b[0] == OFFERING_PDA_TYPE && b.len() == FIXED_OFFERING_ACCOUNT_DATA_LEN + mlen + 9 * nv {
            Some(
                OfferingView {
                    discriminator: b[0],
                    state: b[1],
                    publisher: b.subrange(2, 34),
                    creator: b.subrange(34, 66),
                    offering_seed: b.subrange(66, 98),
                    promoter: b.subrange(98, 130),
                    funded_mint: b.subrange(130, 162),
                    offered_mint: b.subrange(162, 194),
                    softcap: spec_u64_from_le_bytes(b.subrange(194, 202)),
                    hardcap: spec_u64_from_le_bytes(b.subrange(202, 210)),
                    funded_amount: spec_u64_from_le_bytes(b.subrange(210, 218)),
                    min_funding: spec_u64_from_le_bytes(b.subrange(218, 226)),
                    max_funding: spec_u64_from_le_bytes(b.subrange(226, 234)),
                    offer_quantity: spec_u64_from_le_bytes(b.subrange(234, 242)),
                    distributed_quantity: spec_u64_from_le_bytes(b.subrange(242, 250)),
                    market_pool_percentage: b[250],
                    publish_time: spec_i64_from_le_bytes(b.subrange(251, 259)),
                    open_time: spec_i64_from_le_bytes(b.subrange(259, 267)),
                    close_time: spec_i64_from_le_bytes(b.subrange(267, 275)),
                    exit_time: spec_i64_from_le_bytes(b.subrange(275, 283)),
                    num_of_purchasers: spec_u64_from_le_bytes(b.subrange(283, 291)),
                    metadata_cid: b.subrange(300, 300 + mlen),
                    vestings: Seq::new(
                        nv as nat,
                        |j: int|
                            OfferingVesting {
                                release_time: spec_i64_from_le_bytes(
                                    b.subrange(300 + mlen + 9 * j, 300 + mlen + 9 * j + 8),
                                ),
                                percentage: b[300 + mlen + 9 * j + 8],
                            },
                    ),
                },
            )
        } else {
            None
        }
    }
}

/// Unpacking a packed well-formed offering record gives the record back,
/// including zero-length metadata and zero or the maximum 255 vestings.
#[verifier::rlimit(60)]
pub proof fn lemma_offering_round_trip(v: OfferingView)
    requires
        v.wf(),
    ensures
        spec_unpack_offering(spec_pack_offering(v)) == Some(v),
{
    lemma_auto_spec_u64_to_from_le_bytes();
    lemma_auto_i64_le_bytes();
    lemma_spec_pack_vestings_len(v.vestings);
    let b = spec_pack_offering(v);
    let mlen = v.metadata_cid.len() as int;
    let nv = v.vestings.len() as int;
    assert(b.len() == 300 + mlen + 9 * nv);
    let st = v.state;
    assert(st & 0x01u8 == 0x01u8 ==> st | 0x01u8 == st) by (bit_vector);
    assert(b.subrange(291, 299) =~= spec_u64_to_le_bytes(v.metadata_cid.len() as u64));
    assert(b[299] == v.vestings.len() as u8);
    assert(b.subrange(2, 34) =~= v.publisher);
    assert(b.subrange(34, 66) =~= v.creator);
    assert(b.subrange(66, 98) =~= v.offering_seed);
    assert(b.subrange(98, 130) =~= v.promoter);
    assert(b.subrange(130, 162) =~= v.funded_mint);
    assert(b.subrange(162, 194) =~= v.offered_mint);
    assert(b.subrange(194, 202) =~= spec_u64_to_le_bytes(v.softcap));
    assert(b.subrange(202, 210) =~= spec_u64_to_le_bytes(v.hardcap));
    assert(b.subrange(210, 218) =~= spec_u64_to_le_bytes(v.funded_amount));
    assert(b.subrange(218, 226) =~= spec_u64_to_le_bytes(v.min_funding));
    assert(b.subrange(226, 234) =~= spec_u64_to_le_bytes(v.max_funding));
    assert(b.subrange(234, 242) =~= spec_u64_to_le_bytes(v.offer_quantity));
    assert(b.subrange(242, 250) =~= spec_u64_to_le_bytes(v.distributed_quantity));
    assert(b[250] == v.market_pool_percentage);
    assert(b.subrange(251, 259) =~= spec_i64_to_le_bytes(v.publish_time));
    assert(b.subrange(259, 267) =~= spec_i64_to_le_bytes(v.open_time));
    assert(b.subrange(267, 275) =~= spec_i64_to_le_bytes(v.close_time));
    assert(b.subrange(275, 283) =~= spec_i64_to_le_bytes(v.exit_time));
    assert(b.subrange(283, 291) =~= spec_u64_to_le_bytes(v.num_of_purchasers));
    assert(b.subrange(300, 300 + mlen) =~= v.metadata_cid);
    assert(b.subrange(300 + mlen, 300 + mlen + 9 * nv) =~= spec_pack_vestings(v.vestings));
    let parsed = spec_unpack_offering(b)->Some_0;
    assert forall|j: int| 0 <= j < nv implies parsed.vestings[j] == v.vestings[j] by {
        lemma_vesting_extract(v.vestings, j);
        assert(b.subrange(300 + mlen + 9 * j, 300 + mlen + 9 * j + 8) =~= spec_pack_vestings(
            v.vestings,
        ).subrange(9 * j, 9 * j + 8));
        assert(b[300 + mlen + 9 * j + 8] == spec_pack_vestings(v.vestings)[9 * j + 8]);
    }
    assert(parsed.vestings =~= v.vestings);
}

/// Exact byte length needed to pack an offering record, used to size
/// storage before packing.
pub fn calc_offering_account_len(offering: &OfferingAccount) -> (len: usize)
    requires
        offering@.wf(),
        FIXED_OFFERING_ACCOUNT_DATA_LEN + offering@.metadata_cid.len() + 9 * offering@.vestings.len()
            <= usize::MAX,
    ensures
        len == spec_pack_offering(offering@).len(),
        len == FIXED_OFFERING_ACCOUNT_DATA_LEN + offering@.metadata_cid.len() + 9
            * offering@.vestings.len(),
{
    proof {
        lemma_auto_spec_u64_to_from_le_bytes();
        lemma_auto_i64_le_bytes();
        lemma_spec_pack_vestings_len(offering@.vestings);
    }
    FIXED_OFFERING_ACCOUNT_DATA_LEN + offering.metadata_cid.len() + 9 * offering.vestings.len()
}

/// Cheap pre-check: the buffer is long enough to hold an offering's fixed
/// fields, carries the offering discriminator, and has the initialized bit
/// set.  Used before paying for a full decode.
pub fn check_offering_account_data(src: &[u8]) -> (r: bool)
    ensures
        r == (src@.len() >= FIXED_OFFERING_ACCOUNT_DATA_LEN && src@[0] == OFFERING_PDA_TYPE
            && has_flag(src@[1], OFFERING_IS_INITIALIZED)),
{
    let n: usize = src.len();
    if n < FIXED_OFFERING_ACCOUNT_DATA_LEN {
        return false;
    }
    if read_u8_at(src, 0) != OFFERING_PDA_TYPE {
        return false;
    }
    if !flag_set(read_u8_at(src, 1), OFFERING_IS_INITIALIZED) {
        return false;
    }
    true
}

/// Decodes an offering record.  Fails, and never panics, on a truncated
/// buffer, a wrong discriminator, or a declared-length mismatch; a record
/// whose first byte carries the reserved closed tag is reported as closed.
pub fn unpack_offering_account(src: &[u8]) -> (r: Result<OfferingAccount, LedgerError>)
    ensures
        match r {
            Ok(rec) => spec_unpack_offering(src@) == Some(rec@) && rec@.addrs_wf()
                && rec@.discriminator == OFFERING_PDA_TYPE && rec@.metadata_cid.len() <= u64::MAX
                && rec@.vestings.len() <= MAX_VESTINGS,
            Err(e) => spec_unpack_offering(src@) is None && e == (if src@.len()
                >= FIXED_OFFERING_ACCOUNT_DATA_LEN && src@[0] == CLOSED_PDA_TYPE {
                LedgerError::AccountClosed
            } else {
                LedgerError::MalformedRecord
            }),
        },
{
    let n: usize = src.len();
    if n < FIXED_OFFERING_ACCOUNT_DATA_LEN {
        return Err(LedgerError::MalformedRecord);
    }
    let discriminator = read_u8_at(src, 0);
    if discriminator == CLOSED_PDA_TYPE {
        return Err(LedgerError::AccountClosed);
    }
    if discriminator != OFFERING_PDA_TYPE {
        return Err(LedgerError::MalformedRecord);
    }
    let mlen64: u64 = read_u64_at(src, 291);
    let nv: u8 = read_u8_at(src, 299);
    let expected: u128 = (FIXED_OFFERING_ACCOUNT_DATA_LEN as u128) + (mlen64 as u128) + 9u128 * (
    nv as u128);
    if (n as u128) != expected {
        return Err(LedgerError::MalformedRecord);
    }
    let mlen: usize = mlen64 as usize;
    let base: usize = FIXED_OFFERING_ACCOUNT_DATA_LEN + mlen;
    let mut vestings: Vec<OfferingVesting> = Vec::new();
    let mut j: usize = 0;
    while j < nv as usize
        invariant
            src@.len() == n,
            base == FIXED_OFFERING_ACCOUNT_DATA_LEN + mlen,
            n == base + 9 * (nv as int),
            j <= nv as int,
            vestings@.len() == j,
            forall|k: int|
                0 <= k < j ==> vestings@[k] == (OfferingVesting {
                    release_time: spec_i64_from_le_bytes(
                        src@.subrange(base + 9 * k, base + 9 * k + 8),
                    ),
                    percentage: src@[base + 9 * k + 8],
                }),
        decreases nv as int - j,
    {
        let off: usize = base + 9 * j;
        let release_time = read_i64_at(src, off);
        let percentage = read_u8_at(src, off + 8);
        vestings.push(OfferingVesting { release_time, percentage });
        j = j + 1;
    }
    let rec = OfferingAccount {
        discriminator,
        state: read_u8_at(src, 1),
        publisher: Address::from_bytes(read_bytes_at(src, 2, 32)),
        creator: Address::from_bytes(read_bytes_at(src, 34, 32)),
        offering_seed: Address::from_bytes(read_bytes_at(src, 66, 32)),
        promoter: Address::from_bytes(read_bytes_at(src, 98, 32)),
        funded_mint: Address::from_bytes(read_bytes_at(src, 130, 32)),
        offered_mint: Address::from_bytes(read_bytes_at(src, 162, 32)),
        softcap: read_u64_at(src, 194),
        hardcap: read_u64_at(src, 202),
        funded_amount: read_u64_at(src, 210),
        min_funding: read_u64_at(src, 218),
        max_funding: read_u64_at(src, 226),
        offer_quantity: read_u64_at(src, 234),
        distributed_quantity: read_u64_at(src, 242),
        market_pool_percentage: read_u8_at(src, 250),
        publish_time: read_i64_at(src, 251),
        open_time: read_i64_at(src, 259),
        close_time: read_i64_at(src, 267),
        exit_time: read_i64_at(src, 275),
        num_of_purchasers: read_u64_at(src, 283),
        metadata_cid: read_bytes_at(src, FIXED_OFFERING_ACCOUNT_DATA_LEN, mlen),
        vestings,
    };
    proof {
        let parsed = spec_unpack_offering(src@)->Some_0;
        assert(rec@.vestings =~= parsed.vestings);
    }
    Ok(rec)
}

/// Encodes an offering record into pre-sized storage.  The destination
/// must have exactly the packed length; a wrong size is reported and the
/// destination is left untouched.
pub fn pack_offering_account(dst: &mut Vec<u8>, offering: &OfferingAccount) -> (r: Result<
    (),
    LedgerError,
>)
    requires
        offering@.wf(),
    ensures
        match r {
            Ok(_) => final(dst)@ == spec_pack_offering(offering@) && old(dst)@.len()
                == spec_pack_offering(offering@).len(),
            Err(e) => final(dst)@ == old(dst)@ && e == LedgerError::MalformedRecord && old(
                dst,
            )@.len() != spec_pack_offering(offering@).len(),
        },
{
    let mut packed = pack_offering_bytes(offering);
    if dst.len() != packed.len() {
        return Err(LedgerError::MalformedRecord);
    }
    dst.clear();
    dst.append(&mut packed);
    proof {
        assert(dst@ =~= spec_pack_offering(offering@));
    }
    Ok(())
}

/// Canonical packed bytes of an offering record.
pub fn pack_offering_bytes(offering: &OfferingAccount) -> (out: Vec<u8>)
    requires
        offering@.wf(),
    ensures
        out@ == spec_pack_offering(offering@),
{
    let mut out: Vec<u8> = Vec::new();
    push_u8(&mut out, OFFERING_PDA_TYPE);
    push_u8(&mut out, offering.state | OFFERING_IS_INITIALIZED);
    push_bytes(&mut out, &offering.publisher.bytes);
    push_bytes(&mut out, &offering.creator.bytes);
    push_bytes(&mut out, &offering.offering_seed.bytes);
    push_bytes(&mut out, &offering.promoter.bytes);
    push_bytes(&mut out, &offering.funded_mint.bytes);
    push_bytes(&mut out, &offering.offered_mint.bytes);
    push_u64(&mut out, offering.softcap);
    push_u64(&mut out, offering.hardcap);
    push_u64(&mut out, offering.funded_amount);
    push_u64(&mut out, offering.min_funding);
    push_u64(&mut out, offering.max_funding);
    push_u64(&mut out, offering.offer_quantity);
    push_u64(&mut out, offering.distributed_quantity);
    push_u8(&mut out, offering.market_pool_percentage);
    push_i64(&mut out, offering.publish_time);
    push_i64(&mut out, offering.open_time);
    push_i64(&mut out, offering.close_time);
    push_i64(&mut out, offering.exit_time);
    push_u64(&mut out, offering.num_of_purchasers);
    push_u64(&mut out, offering.metadata_cid.len() as u64);
    push_u8(&mut out, offering.vestings.len() as u8);
    push_bytes(&mut out, &offering.metadata_cid);
    let ghost prefix: Seq<u8> = out@;
    let nv: usize = offering.vestings.len();
    let mut j: usize = 0;
    while j < nv
        invariant
            nv == offering@.vestings.len(),
            j <= nv,
            out@ == prefix + spec_pack_vestings(offering@.vestings.take(j as int)),
        decreases nv - j,
    {
        let entry = offering.vestings[j];
        push_i64(&mut out, entry.release_time);
        push_u8(&mut out, entry.percentage);
        proof {
            let vs = offering@.vestings;
            assert(vs.take(j + 1).drop_last() =~= vs.take(j as int));
            assert(vs.take(j + 1).last() == vs[j as int]);
            assert(out@ =~= prefix + spec_pack_vestings(vs.take(j + 1)));
        }
        j = j + 1;
    }
    proof {
        assert(offering@.vestings.take(nv as int) =~= offering@.vestings);
        assert(out@ =~= spec_pack_offering(offering@));
    }
    out
}

impl OfferingAccount {
    /// A record is initialized when it carries the offering discriminator
    /// and the initialized state bit.
    pub fn is_initialized(&self) -> (r: bool)
        ensures
            r == (self@.discriminator == OFFERING_PDA_TYPE && has_flag(
                self@.state,
                OFFERING_IS_INITIALIZED,
            )),
    {
        self.discriminator == OFFERING_PDA_TYPE && flag_set(self.state, OFFERING_IS_INITIALIZED)
    }

    /// The offering is visible once past its publish time.
    pub fn is_published(&self, time: i64) -> (r: bool)
        ensures
            r == (has_flag(self@.state, OFFERING_IS_INITIALIZED) && time > self@.publish_time),
    {
        flag_set(self.state, OFFERING_IS_INITIALIZED) && time > self.publish_time
    }

    /// Terminal distribution condition: the whole reserved quantity has
    /// been distributed (a quantity equality, not a flag).
    pub fn is_all_vesting_distributed(&self) -> (r: bool)
        ensures
            r == (has_flag(self@.state, OFFERING_IS_INITIALIZED) && self@.offer_quantity
                == self@.distributed_quantity),
    {
        flag_set(self.state, OFFERING_IS_INITIALIZED) && self.offer_quantity
            == self.distributed_quantity
    }

    /// The purchasing window is open and headroom remains under the
    /// hardcap.  The window is `[open_time, close_time)`.
    pub fn is_purchasable(&self, time: i64) -> (r: bool)
        ensures
            r == (has_flag(self@.state, OFFERING_IS_INITIALIZED) && time >= self@.open_time && time
                < self@.close_time && self@.hardcap > self@.funded_amount),
    {
        flag_set(self.state, OFFERING_IS_INITIALIZED) && time >= self.open_time && time
            < self.close_time && self.hardcap > self.funded_amount
    }

    /// Whether the first vesting's release time has passed.
    pub fn is_first_vesting_released(&self, time: i64) -> (r: bool)
        ensures
            r == (has_flag(self@.state, OFFERING_IS_INITIALIZED) && self@.vestings.len() > 0 && time
                > self@.vestings[0].release_time),
    {
        flag_set(self.state, OFFERING_IS_INITIALIZED) && self.vestings.len() > 0 && time
            > self.vestings[0].release_time
    }

    /// Whether the sold-out bit is set.
    pub fn has_sold_out(&self) -> (r: bool)
        ensures
            r == has_flag(self@.state, OFFERING_HAS_SOLD_OUT),
    {
        flag_set(self.state, OFFERING_HAS_SOLD_OUT)
    }

    /// Remaining funding headroom under the hardcap.
    pub fn fundable_amount(&self) -> (r: u64)
        requires
            self@.funded_amount <= self@.hardcap,
        ensures
            r == self@.hardcap - self@.funded_amount,
    {
        self.hardcap - self.funded_amount
    }
}

} // verus!
