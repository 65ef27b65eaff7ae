use vstd::prelude::*;

verus! {

/// Every way in which an operation of the engine can be refused.
#[derive(Clone, Copy, Debug, PartialEq, Eq, Structural)]
pub enum ZetoError {
    /// The expiry given at creation is not later than the current time.
    ExpiryInPast,
    /// A deal was created with a zero amount.
    InvalidAmount,
    /// The operation is not legal from the deal's current status.
    InvalidStatus,
    /// The caller is not the party that the operation requires.
    Unauthorized,
    /// Settlement was attempted at or after the expiry.
    DealExpired,
    /// A reclaim was attempted before the expiry.
    NotExpired,
    /// Checked arithmetic on the settlement amounts would wrap.
    Overflow,
    /// A deal record already exists for this identifier.
    DealExists,
}

impl ZetoError {
    /// The message that the host reports for this error.
    pub fn message(&self) -> (r: &'static str) {
        match self {
            ZetoError::ExpiryInPast => "Expiry timestamp must be in the future",
            ZetoError::InvalidAmount => "Amount must be greater than zero",
            ZetoError::InvalidStatus => "Invalid deal status for this operation",
            ZetoError::Unauthorized => "Unauthorized: signer is not the expected party",
            ZetoError::DealExpired => "Deal has expired",
            ZetoError::NotExpired => "Deal has not expired yet",
            ZetoError::Overflow => "Arithmetic overflow",
            ZetoError::DealExists => "A deal with this identifier already exists",
        }
    }
}

} // verus!
