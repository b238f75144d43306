//! Error taxonomy of the core.  Every operation returns a single
//! discriminated error outcome and applies no effect at all on failure.

use vstd::prelude::*;

verus! {

/// The error kinds a core operation can report.
#[derive(Clone, Copy, Debug, PartialEq, Eq, Structural)]
pub enum LedgerError {
    /// Length mismatch, truncated buffer, or wrong discriminator during decode.
    MalformedRecord,
    /// The signer does not match the required authority role.
    Unauthorized,
    /// A required party did not sign the call.
    MissingSignature,
    /// A supplied account's address does not match its expected derived address.
    InvalidAddress,
    /// A precondition on state bits, timestamps or quantities is not met.
    InvalidState,
    /// A checked numeric operation would exceed its range or a declared cap.
    ArithmeticOverflow,
    /// The record's first byte equals the reserved closed-type tag.
    AccountClosed,
    /// A state combination for which no transition is defined.
    UnhandledState,
}

impl LedgerError {
    /// A short stable name for the error, for callers that log outcomes.
    pub fn name(&self) -> String {
        match self {
            LedgerError::MalformedRecord => "malformed record".to_string(),
            LedgerError::Unauthorized => "unauthorized".to_string(),
            LedgerError::MissingSignature => "missing signature".to_string(),
            LedgerError::InvalidAddress => "invalid address".to_string(),
            LedgerError::InvalidState => "invalid state".to_string(),
            LedgerError::ArithmeticOverflow => "arithmetic overflow".to_string(),
            LedgerError::AccountClosed => "account closed".to_string(),
            LedgerError::UnhandledState => "unhandled state".to_string(),
        }
    }
}

} // verus!
