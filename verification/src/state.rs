//! The durable records: one per property, one per holder of a property.

use vstd::prelude::*;
use crate::keys::Address;

verus! {

/// The fixed-point scale of the yield index: an index of `SCALE` stands for
/// one payable unit per share.
pub const SCALE: u128 = 1_000_000_000u128;

/// How many title tokens there are of a property, and so how many its title
/// custody holds while the property is fractionalized: one.
pub const TITLE_AMOUNT: u64 = 1;

/// The most bytes a property's descriptive string may take.
pub const MAX_METADATA_LEN: usize = 200;

/// The room that the fixed part of a property's record takes: an 8-byte
/// tag, four keys, the share supply, the decimals, the index, the salt, and
/// the 4-byte length of the descriptive string.
pub const PROPERTY_FIXED_SPACE: usize = 8 + 32 + 32 + 32 + 32 + 8 + 1 + 16 + 1 + 4;

/// The room that is made for a property's record: the fixed part and the
/// longest descriptive string.
pub const PROPERTY_ACCOUNT_SPACE: usize = PROPERTY_FIXED_SPACE + MAX_METADATA_LEN;

/// The room that a holder's record takes: an 8-byte tag, two keys, the
/// balance, the debt, the unclaimed yield and the salt.
pub const HOLDER_STATE_SPACE: usize = 8 + 32 + 32 + 8 + 16 + 16 + 1;

/// The record of one tokenized property.
#[derive(Clone, Debug, PartialEq, Eq)]
pub struct PropertyAccount {
    /// The record's own key.
    pub property_key: Address,
    /// Who may mint shares and ask the title back.
    pub authority: Address,
    /// The unique title token.
    pub nft_mint: Address,
    /// The fungible share token.
    pub fraction_mint: Address,
    /// The share supply that rent is divided by. It is set once and never
    /// follows minting or burning.
    pub total_fractions: u64,
    /// The number of decimals of the share token.
    pub fraction_decimal: u8,
    /// All rent ever deposited per share, scaled by [`SCALE`]. It never
    /// decreases.
    pub cum_rent_per_share: u128,
    /// The salt of the record's derived address.
    pub bump: u8,
    /// An opaque descriptive string.
    pub metadata_uri: String,
}

/// The record of one holder's stake in one property. It is made when the
/// holder first receives shares and stays, also at balance zero, so that a
/// later acquisition resumes correct accounting.
#[derive(Clone, Copy, Debug, PartialEq, Eq)]
pub struct HolderState {
    /// The holder.
    pub holder: Address,
    /// The property that the shares belong to.
    pub property: Address,
    /// The shares held.
    pub balance: u64,
    /// `balance` times the yield index as of the last settlement.
    pub reward_debt: u128,
    /// Yield settled but not yet paid out, scaled by [`SCALE`].
    pub unclaimed: u128,
    /// The salt of the record's derived address.
    pub bump: u8,
}

impl HolderState {
    /// Everything the holder's present balance has earned since the property
    /// was created, scaled.
    pub open spec fn accrued(self, index: u128) -> int {
        self.balance as int * index as int
    }

    /// What the balance has earned since the last settlement, scaled. Where
    /// the debt is ahead of the accrual the difference counts as nothing
    /// rather than as an error.
    pub open spec fn pending(self, index: u128) -> int {
        if self.accrued(index) >= self.reward_debt as int {
            self.accrued(index) - self.reward_debt as int
        } else {
            0
        }
    }

    /// What the holder is owed at the given index, scaled: what was settled
    /// before and what is pending now.
    pub open spec fn owed(self, index: u128) -> int {
        self.unclaimed as int + self.pending(index)
    }

    /// What the holder would be paid at the given index, in whole payable
    /// units. The fraction of a unit is dropped.
    pub open spec fn payout(self, index: u128) -> int {
        self.owed(index) / (SCALE as int)
    }

    /// Whether the pending yield can be settled without a number leaving its
    /// 128 bits.
    pub open spec fn settles(self, index: u128) -> bool {
        self.accrued(index) <= u128::MAX && self.owed(index) <= u128::MAX
    }

    /// The record after it was settled at `index` and its balance set to
    /// `balance`: the pending yield is set aside as unclaimed, and the debt is
    /// that of the new balance.
    pub open spec fn settled(self, index: u128, balance: u64) -> HolderState {
        HolderState {
            balance,
            reward_debt: (balance as int * index as int) as u128,
            unclaimed: self.owed(index) as u128,
            ..self
        }
    }

    /// The record after everything owed was paid out at `index`.
    pub open spec fn claimed(self, index: u128) -> HolderState {
        HolderState { reward_debt: self.accrued(index) as u128, unclaimed: 0, ..self }
    }

    /// Whether the debt is that of the present balance at `index`, so that
    /// nothing is pending.
    pub open spec fn up_to_date(self, index: u128) -> bool {
        self.reward_debt as int == self.accrued(index)
    }

    /// Whether the record is vacant: it names no holder, as a record does
    /// that was only just made room for.
    pub open spec fn is_vacant(self) -> bool {
        self.holder.is_zero()
    }

    /// The record as an operation finds it: a vacant record becomes the
    /// fresh record of `holder`, one that is taken stays as it is.
    pub fn opened(self, holder: Address, property: Address, bump: u8) -> (r: HolderState)
        ensures
            self.is_vacant() ==> r == (HolderState {
                holder,
                property,
                balance: 0,
                reward_debt: 0,
                unclaimed: 0,
                bump,
            }),
            !self.is_vacant() ==> r == self,
    {
        if self.holder.is_zero() {
            HolderState::new(holder, property, bump)
        } else {
            self
        }
    }

    /// A fresh record for a holder who has no shares yet.
    pub fn new(holder: Address, property: Address, bump: u8) -> (r: HolderState)
        ensures
            r == (HolderState { holder, property, balance: 0, reward_debt: 0, unclaimed: 0, bump }),
    {
        HolderState { holder, property, balance: 0, reward_debt: 0, unclaimed: 0, bump }
    }
}

} // verus!
