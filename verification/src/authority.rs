//! Authority checks and operation-mode resolution.
//!
//! Every privileged operation names the authority role it requires; these
//! helpers check that the acting party signed and matches that role.  A
//! mode bitmask lets one signer stand in for two logical roles, in which
//! case the second role's account slot is omitted from the account list;
//! undefined mode bits are rejected outright.

use vstd::prelude::*;
use crate::addr::Address;
use crate::constant::{has_flag, flag_set, INIT_PUBLISHER_MODE_PAYER_AND_AUTHORITY_ARE_THE_SAME};
use crate::error::LedgerError;

verus! {

/// Fails unless the party cryptographically authorized the call.
pub fn check_is_signer(is_signer: bool) -> (r: Result<(), LedgerError>)
    ensures
        match r {
            Ok(_) => is_signer,
            Err(e) => !is_signer && e == LedgerError::MissingSignature,
        },
{
    if is_signer {
        Ok(())
    } else {
        Err(LedgerError::MissingSignature)
    }
}

/// Fails unless the actual signer both signed and matches the expected
/// authority role for the operation.
pub fn check_signer_authority(expected: &Address, actual: &Address, actual_is_signer: bool) -> (r:
    Result<(), LedgerError>)
    ensures
        match r {
            Ok(_) => actual_is_signer && expected@ == actual@,
            Err(e) => if !actual_is_signer {
                e == LedgerError::MissingSignature
            } else {
                e == LedgerError::Unauthorized && expected@ != actual@
            },
        },
{
    if !actual_is_signer {
        return Err(LedgerError::MissingSignature);
    }
    if !expected.same_as(actual) {
        return Err(LedgerError::Unauthorized);
    }
    Ok(())
}

/// The view of an optional account slot.
pub open spec fn opt_addr_view(slot: Option<&Address>) -> Option<Seq<u8>> {
    match slot {
        Some(a) => Some(a@),
        None => None,
    }
}

/// Which address acts as the publisher authority for an initiate-publisher
/// call under the given mode: the payer itself when the mode says payer
/// and authority are the same, otherwise the separate authority slot.
/// Undefined mode bits resolve to nothing.
pub open spec fn spec_init_publisher_authority(
    mode: u8,
    payer: Seq<u8>,
    slot: Option<Seq<u8>>,
) -> Option<Seq<u8>> {
    if mode & !INIT_PUBLISHER_MODE_PAYER_AND_AUTHORITY_ARE_THE_SAME != 0 {
        None
    } else if has_flag(mode, INIT_PUBLISHER_MODE_PAYER_AND_AUTHORITY_ARE_THE_SAME) {
        Some(payer)
    } else {
        slot
    }
}

/// Resolves the authority account for an initiate-publisher call from the
/// mode byte and the optional authority slot.  An undefined mode bit is an
/// unhandled state; a missing required slot is an invalid state.
pub fn resolve_init_publisher_authority(
    mode: u8,
    payer: &Address,
    authority_slot: Option<&Address>,
) -> (r: Result<Address, LedgerError>)
    ensures
        match r {
            Ok(a) => spec_init_publisher_authority(mode, payer@, opt_addr_view(authority_slot))
                == Some(a@),
            Err(e) => spec_init_publisher_authority(mode, payer@, opt_addr_view(authority_slot))
                is None && e == (if mode & !INIT_PUBLISHER_MODE_PAYER_AND_AUTHORITY_ARE_THE_SAME
                != 0 {
                LedgerError::UnhandledState
            } else {
                LedgerError::InvalidState
            }),
        },
{
    if mode & !INIT_PUBLISHER_MODE_PAYER_AND_AUTHORITY_ARE_THE_SAME != 0 {
        return Err(LedgerError::UnhandledState);
    }
    if flag_set(mode, INIT_PUBLISHER_MODE_PAYER_AND_AUTHORITY_ARE_THE_SAME) {
        return Ok(payer.dup());
    }
    match authority_slot {
        Some(a) => Ok(a.dup()),
        None => Err(LedgerError::InvalidState),
    }
}

} // verus!
