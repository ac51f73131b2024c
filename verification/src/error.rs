//! The named reasons for which the ledger rejects a request.

use vstd::prelude::*;

verus! {

/// Why a request was rejected. A rejected request changes nothing.
#[derive(Clone, Copy, Debug, PartialEq, Eq, Hash)]
pub enum EchoError {
    /// A voice was registered with a cap of zero uses.
    InvalidMaxUses,
    /// The royalty share exceeds one whole (10000 basis points).
    InvalidRoyalty,
    /// The license type is neither personal (0) nor commercial (1).
    InvalidLicenseType,
    /// A purchase asked for zero uses.
    InvalidUsesAmount,
    /// A purchase asked for more uses than the license has left to sell.
    InsufficientUsesAvailable,
    /// The holder has no uses left to spend.
    NoUsesRemaining,
    /// A counter or an amount would leave its integer range.
    Overflow,
    /// The payee named in a purchase is not the creator of the voice.
    InvalidCreator,
    /// The caller does not hold the usage record presented.
    UnauthorizedUser,
}

impl EchoError {
    /// The text of the message, as a sequence of characters.
    pub open spec fn text(self) -> Seq<char> {
        match self {
            EchoError::InvalidMaxUses => "Max uses must be greater than 0"@,
            EchoError::InvalidRoyalty => "Royalty basis points must be <= 10000"@,
            EchoError::InvalidLicenseType => "License type must be 0 (Personal) or 1 (Commercial)"@,
            EchoError::InvalidUsesAmount => "Uses to buy must be greater than 0"@,
            EchoError::InsufficientUsesAvailable => "Not enough uses available for purchase"@,
            EchoError::NoUsesRemaining => "No uses remaining"@,
            EchoError::Overflow => "Arithmetic overflow"@,
            EchoError::InvalidCreator => "Invalid creator account"@,
            EchoError::UnauthorizedUser => "Unauthorized user"@,
        }
    }

    /// The message that describes this error to a person.
    pub fn message(&self) -> (msg: &'static str)
        ensures
            msg@ == self.text(),
    {
        match self {
            EchoError::InvalidMaxUses => "Max uses must be greater than 0",
            EchoError::InvalidRoyalty => "Royalty basis points must be <= 10000",
            EchoError::InvalidLicenseType => "License type must be 0 (Personal) or 1 (Commercial)",
            EchoError::InvalidUsesAmount => "Uses to buy must be greater than 0",
            EchoError::InsufficientUsesAvailable => "Not enough uses available for purchase",
            EchoError::NoUsesRemaining => "No uses remaining",
            EchoError::Overflow => "Arithmetic overflow",
            EchoError::InvalidCreator => "Invalid creator account",
            EchoError::UnauthorizedUser => "Unauthorized user",
        }
    }
}

} // verus!
