//! Cross-operation laws of the state machine.
//!
//! Laws that a single operation's contract cannot carry on its own are
//! stated and proved here; the codec round-trip laws live beside each
//! codec in `state`.

use vstd::prelude::*;
use crate::constant::{
    has_flag, OFFERING_IS_APPROVED_BY_PUBLISHER, OFFERING_IS_REJECTED_BY_PUBLISHER,
};
use crate::lifecycle::{spec_approved_state, spec_rejected_state};

verus! {

/// Mutual exclusivity of the approval outcome: after an approval, or a
/// rejection, or one followed by the other in either order, exactly one
/// of the approved and rejected bits is set — the one written last.
pub proof fn law_approval_mutual_exclusion(s: u8)
    ensures
        has_flag(spec_approved_state(s), OFFERING_IS_APPROVED_BY_PUBLISHER),
        !has_flag(spec_approved_state(s), OFFERING_IS_REJECTED_BY_PUBLISHER),
        has_flag(spec_rejected_state(s), OFFERING_IS_REJECTED_BY_PUBLISHER),
        !has_flag(spec_rejected_state(s), OFFERING_IS_APPROVED_BY_PUBLISHER),
        spec_rejected_state(spec_approved_state(s)) == spec_rejected_state(s),
        spec_approved_state(spec_rejected_state(s)) == spec_approved_state(s),
{
    assert(((s | 0x08u8) & !0x10u8) & 0x08u8 == 0x08u8 && ((s | 0x08u8) & !0x10u8) & 0x10u8 != 0x10u8
        && ((s | 0x10u8) & !0x08u8) & 0x10u8 == 0x10u8 && ((s | 0x10u8) & !0x08u8) & 0x08u8
        != 0x08u8 && ((((s | 0x08u8) & !0x10u8) | 0x10u8) & !0x08u8) == ((s | 0x10u8) & !0x08u8)
        && ((((s | 0x10u8) & !0x08u8) | 0x08u8) & !0x10u8) == ((s | 0x08u8) & !0x10u8)) by (
    bit_vector);
}

} // verus!
