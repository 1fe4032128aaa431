//! The named conditions under which an operation of the sale is refused.

use vstd::prelude::*;

verus! {

/// Why an operation was refused. Every refusal leaves the sale untouched.
#[derive(Clone, Copy, Debug, PartialEq, Eq, Structural, Hash)]
pub enum PresaleError {
    /// A checked computation left the range of the counters.
    MathOverflow,
    /// The caller is not the admin, the sale is paused, or the holding
    /// account is not the buyer's canonical one.
    Unauthorized,
    /// The payment bounds are inverted, or a payment would buy nothing.
    InvalidLimits,
    /// The asset's issuance authority is not the sale's mint authority.
    MintAuthorityNotSet,
    /// The asset's freeze authority is not the sale's mint authority.
    FreezeAuthorityNotSet,
    /// The payment is below the sale's minimum.
    BelowMin,
    /// The payment is above the sale's maximum.
    AboveMax,
    /// The payment is not a whole multiple of the unit price.
    NotMultiple,
    /// The purchase would issue more than the supply cap leaves.
    ExceedsSupplyCap,
}

/// The number from which the error codes of a program count.
pub const ERROR_CODE_OFFSET: u32 = 6000;

impl PresaleError {
    /// The position of the variant in the declaration, counted from zero.
    pub open spec fn ordinal(&self) -> nat {
        match self {
            PresaleError::MathOverflow => 0,
            PresaleError::Unauthorized => 1,
            PresaleError::InvalidLimits => 2,
            PresaleError::MintAuthorityNotSet => 3,
            PresaleError::FreezeAuthorityNotSet => 4,
            PresaleError::BelowMin => 5,
            PresaleError::AboveMax => 6,
            PresaleError::NotMultiple => 7,
            PresaleError::ExceedsSupplyCap => 8,
        }
    }

    /// The text that accompanies each variant.
    pub open spec fn message_spec(&self) -> Seq<char> {
        match self {
            PresaleError::MathOverflow => "Math overflow"@,
            PresaleError::Unauthorized => "Unauthorized"@,
            PresaleError::InvalidLimits => "Invalid min/max limits"@,
            PresaleError::MintAuthorityNotSet => "Mint authority not set to PDA"@,
            PresaleError::FreezeAuthorityNotSet => "Freeze authority not set to PDA"@,
            PresaleError::BelowMin => "Amount below min"@,
            PresaleError::AboveMax => "Amount above max"@,
            PresaleError::NotMultiple => "Amount not a multiple of price"@,
            PresaleError::ExceedsSupplyCap => "Supply cap exceeded"@,
        }
    }

    /// The code under which the host reports the error: the offset of
    /// program errors plus the variant's position.
    pub fn code(&self) -> (code: u32)
        ensures
            code == ERROR_CODE_OFFSET + self.ordinal(),
    {
        match self {
            PresaleError::MathOverflow => 6000,
            PresaleError::Unauthorized => 6001,
            PresaleError::InvalidLimits => 6002,
            PresaleError::MintAuthorityNotSet => 6003,
            PresaleError::FreezeAuthorityNotSet => 6004,
            PresaleError::BelowMin => 6005,
            PresaleError::AboveMax => 6006,
            PresaleError::NotMultiple => 6007,
            PresaleError::ExceedsSupplyCap => 6008,
        }
    }

    /// The human-readable message of the error.
    pub fn message(&self) -> (text: &'static str)
        ensures
            text@ == self.message_spec(),
    {
        match self {
            PresaleError::MathOverflow => "Math overflow",
            PresaleError::Unauthorized => "Unauthorized",
            PresaleError::InvalidLimits => "Invalid min/max limits",
            PresaleError::MintAuthorityNotSet => "Mint authority not set to PDA",
            PresaleError::FreezeAuthorityNotSet => "Freeze authority not set to PDA",
            PresaleError::BelowMin => "Amount below min",
            PresaleError::AboveMax => "Amount above max",
            PresaleError::NotMultiple => "Amount not a multiple of price",
            PresaleError::ExceedsSupplyCap => "Supply cap exceeded",
        }
    }
}

/// Distinct errors carry distinct codes, so a caller can branch on the code.
pub proof fn lemma_codes_are_distinct(a: PresaleError, b: PresaleError)
    ensures
        a.ordinal() == b.ordinal() <==> a == b,
{
}

} // verus!
