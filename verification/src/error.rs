//! The reasons for which a payload is refused.

use vstd::prelude::*;

verus! {

/// The first rule that a set of fields breaks.
#[derive(Debug, PartialEq, Eq, Clone, Copy, Structural)]
pub enum EpcError {
    /// No version was given.
    MissingVersion,
    /// No character set was given.
    MissingCharacterSet,
    /// No identification was given.
    MissingIdentification,
    /// No BIC was given, and the version asks for one.
    BICRequiredInConfiguredVersion,
    /// No beneficiary was given, or an empty one.
    MissingBeneficiary,
    /// The IBAN has not the shape of one or fails its check.
    InvalidIBAN,
    /// No IBAN was given.
    MissingIBAN,
    /// The amount is not written as euros and cents, or is zero.
    InvalidAmount,
    /// The purpose code is not four upper-case letters.
    InvalidPurpose,
    /// The structured reference is no valid RF creditor reference.
    InvalidRemittanceReference,
    /// The remittance text is longer than 140 characters.
    RemittanceTextTooLong,
}

impl EpcError {
    /// The sentence that describes the error.
    pub open spec fn message(self) -> Seq<char> {
        match self {
            EpcError::MissingVersion => "Version missing"@,
            EpcError::MissingCharacterSet => "CharacterSet missing"@,
            EpcError::MissingIdentification => "Identification missing"@,
            EpcError::BICRequiredInConfiguredVersion => "BIC is missing but configured Version requires it"@,
            EpcError::MissingBeneficiary => "Beneficiary missing"@,
            EpcError::InvalidIBAN => "Invalid IBAN"@,
            EpcError::MissingIBAN => "IBAN missing"@,
            EpcError::InvalidAmount => "Invalid amount"@,
            EpcError::InvalidPurpose => "Invalid purpose"@,
            EpcError::InvalidRemittanceReference => "Invalid structured RF creditor reference"@,
            EpcError::RemittanceTextTooLong => "Remittance text too long (max len 140)"@,
        }
    }

    /// The sentence that describes the error.
    pub fn as_str(&self) -> (r: &'static str)
        ensures
            r@ == self.message(),
    {
        match self {
            EpcError::MissingVersion => "Version missing",
            EpcError::MissingCharacterSet => "CharacterSet missing",
            EpcError::MissingIdentification => "Identification missing",
            EpcError::BICRequiredInConfiguredVersion => {
                "BIC is missing but configured Version requires it"
            },
            EpcError::MissingBeneficiary => "Beneficiary missing",
            EpcError::InvalidIBAN => "Invalid IBAN",
            EpcError::MissingIBAN => "IBAN missing",
            EpcError::InvalidAmount => "Invalid amount",
            EpcError::InvalidPurpose => "Invalid purpose",
            EpcError::InvalidRemittanceReference => "Invalid structured RF creditor reference",
            EpcError::RemittanceTextTooLong => "Remittance text too long (max len 140)",
        }
    }

    /// The sentence that describes the error, as an owned string.
    pub fn to_string(&self) -> (r: String)
        ensures
            r@ == self.message(),
    {
        self.as_str().to_owned()
    }
}

} // verus!
