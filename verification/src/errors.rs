//! The ways an operation can be refused.

use vstd::prelude::*;

verus! {

/// Why an operation was refused. Every refusal is final: nothing is retried,
/// and the records are left as they were.
#[derive(Clone, Copy, Debug, PartialEq, Eq, Structural)]
pub enum ErrorCode {
    /// A checked addition or multiplication would have wrapped.
    NumericOverflow,
    /// The caller is not the property's authority.
    Unauthorized,
    /// The title custody does not hold exactly one title token.
    InvalidNftVaultAmount,
    /// Rent was deposited for a property whose share pool is empty.
    NoFractions,
    /// Nothing is owed to the holder. No operation of this crate reports
    /// it: a claim that pays nothing is no error.
    NoPendingRewards,
    /// The holder has fewer shares than the operation takes away.
    InsufficientFunds,
    /// The title was asked back while shares are still outstanding.
    FractionsNotBurned,
    /// Two keys that have to name the same account differ.
    RequireKeysEqViolated,
    /// A record does not fit in the room that was made for it.
    AccountDidNotSerialize,
}

impl ErrorCode {
    /// The sentence that goes with the refusal.
    pub open spec fn spec_message(self) -> Seq<char> {
        match self {
            ErrorCode::NumericOverflow => "Numeric overflow occurred"@,
            ErrorCode::Unauthorized => "Unauthorized"@,
            ErrorCode::InvalidNftVaultAmount => "Invalid NFT vault amount"@,
            ErrorCode::NoFractions => "No fractions minted"@,
            ErrorCode::NoPendingRewards => "No pending rewards"@,
            ErrorCode::InsufficientFunds => "Insufficient fraction balance"@,
            ErrorCode::FractionsNotBurned => "Fractions must be fully burned before unlocking NFT"@,
            ErrorCode::RequireKeysEqViolated => "A require_keys_eq expression was violated"@,
            ErrorCode::AccountDidNotSerialize => "Failed to serialize the account"@,
        }
    }

    /// The sentence that goes with the refusal, as an owned string.
    pub fn message(&self) -> (r: String)
        ensures
            r@ == self.spec_message(),
    {
        match self {
            ErrorCode::NumericOverflow => "Numeric overflow occurred".to_owned(),
            ErrorCode::Unauthorized => "Unauthorized".to_owned(),
            ErrorCode::InvalidNftVaultAmount => "Invalid NFT vault amount".to_owned(),
            ErrorCode::NoFractions => "No fractions minted".to_owned(),
            ErrorCode::NoPendingRewards => "No pending rewards".to_owned(),
            ErrorCode::InsufficientFunds => "Insufficient fraction balance".to_owned(),
            ErrorCode::FractionsNotBurned => {
                "Fractions must be fully burned before unlocking NFT".to_owned()
            },
            ErrorCode::RequireKeysEqViolated => {
                "A require_keys_eq expression was violated".to_owned()
            },
            ErrorCode::AccountDidNotSerialize => "Failed to serialize the account".to_owned(),
        }
    }
}

} // verus!
