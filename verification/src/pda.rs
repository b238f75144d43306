//! Derived-address verification.
//!
//! The host ledger derives program-owned addresses deterministically from a
//! seed list and a program id.  The derivation itself is the host
//! environment's primitive; this module names its result and verifies that
//! a claimed address matches the derivation before any operation trusts it.

use vstd::prelude::*;
use crate::addr::Address;
use crate::constant::PUBLISHER_PDA_TYPE;
use crate::error::LedgerError;

verus! {

/// The views of a list of byte-string seeds.
pub open spec fn seed_views(seeds: Seq<Vec<u8>>) -> Seq<Seq<u8>> {
    seeds.map_values(|s: Vec<u8>| s@)
}

/// What the host's address derivation returns for a seed list and a
/// program id: either a 32-byte address with its bump seed, or nothing in
/// the statistically improbable event that no bump works.
pub uninterp spec fn derived_address(seeds: Seq<Seq<u8>>, program_id: Seq<u8>) -> Option<
    (Seq<u8>, u8),
>;

/// Relies on solana_program::pubkey::Pubkey::try_find_program_address: the
/// returned address and bump are a deterministic function of the seed list
/// and the program id alone, and a returned address is exactly 32 bytes.
#[verifier::external_body]
fn try_derive_address(seeds: &Vec<Vec<u8>>, program_id: &Address) -> (r: Option<(Address, u8)>)
    requires
        program_id.wf(),
    ensures
        match r {
            Some(p) => derived_address(seed_views(seeds@), program_id@) == Some((p.0@, p.1))
                && p.0.wf(),
            None => derived_address(seed_views(seeds@), program_id@) is None,
        },
{
    let seed_refs: Vec<&[u8]> = seeds.iter().map(|s| s.as_slice()).collect();
    let pid = solana_program::pubkey::Pubkey::new_from_array(
        program_id.bytes.as_slice().try_into().unwrap(),
    );
    match solana_program::pubkey::Pubkey::try_find_program_address(&seed_refs, &pid) {
        Some((pk, bump)) => Some((Address { bytes: pk.to_bytes().to_vec() }, bump)),
        None => None,
    }
}

/// Verifies that `account` is the address derived from `raw_seeds` under
/// `program_id`, and returns the bump seed on success.  A claimed address
/// is never trusted on the derivation alone: the comparison is part of the
/// contract.
pub fn verify_pda(program_id: &Address, account: &Address, raw_seeds: &Vec<Vec<u8>>) -> (r: Result<
    u8,
    LedgerError,
>)
    requires
        program_id.wf(),
    ensures
        match r {
            Ok(bump) => derived_address(seed_views(raw_seeds@), program_id@) == Some(
                (account@, bump),
            ),
            Err(e) => e == LedgerError::InvalidAddress && match derived_address(
                seed_views(raw_seeds@),
                program_id@,
            ) {
                Some(p) => p.0 != account@,
                None => true,
            },
        },
{
    match try_derive_address(raw_seeds, program_id) {
        None => Err(LedgerError::InvalidAddress),
        Some(p) => {
            let (pda, bump) = p;
            if pda.same_as(account) {
                Ok(bump)
            } else {
                Err(LedgerError::InvalidAddress)
            }
        },
    }
}

/// The seed list under which a publisher record's address is derived:
/// the publisher entity tag, the creator's address, and the caller-chosen
/// publisher seed.
pub open spec fn spec_publisher_seeds(creator: Seq<u8>, publisher_seed: Seq<u8>) -> Seq<Seq<u8>> {
    seq![seq![PUBLISHER_PDA_TYPE], creator, publisher_seed]
}

/// Builds the publisher seed list for [`verify_pda`].
pub fn publisher_pda_seeds(creator: &Address, publisher_seed: &Address) -> (s: Vec<Vec<u8>>)
    ensures
        seed_views(s@) == spec_publisher_seeds(creator@, publisher_seed@),
{
    let mut tag: Vec<u8> = Vec::new();
    tag.push(PUBLISHER_PDA_TYPE);
    let mut s: Vec<Vec<u8>> = Vec::new();
    s.push(tag);
    s.push(creator.dup().bytes);
    s.push(publisher_seed.dup().bytes);
    proof {
        assert(seed_views(s@) =~= spec_publisher_seeds(creator@, publisher_seed@));
    }
    s
}

} // verus!
