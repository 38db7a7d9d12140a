//! Fractional ownership of a property: a fixed pool of fungible shares, and
//! rent paid out to the shareholders in proportion to what each holds at the
//! moment the rent arrives.
//!
//! The heart of the crate is the cumulative-index ledger: one index per
//! property, one small record per holder, and a settle-then-mutate step that
//! keeps every holder's entitlement exact while shares move between deposits.
//! Token custody itself is somebody else's job; the functions here decide
//! what is allowed and what the records look like afterwards.

pub mod accrual;
pub mod claim;
pub mod custody;
pub mod errors;
pub mod keys;
pub mod ledger;
pub mod lifecycle;
pub mod settlement;
pub mod state;

pub use accrual::{deposit_rent, DepositRent};
pub use claim::{claim_rent, ClaimRent};
pub use custody::{find_custody, find_property_custody, Custody, CustodyKind};
pub use errors::ErrorCode;
pub use keys::Address;
pub use lifecycle::{
    deposit_nft_into_vault, initialize_property, unlock_nft, DepositNftIntoVault,
    InitializeProperty, UnlockNft,
};
pub use settlement::{
    burn_fractions, buy_fractions, mint_fractions, transfer_fractions, BurnFractions,
    BuyFractions, MintFractions, TransferFractions,
};
pub use state::{
    HolderState, PropertyAccount, HOLDER_STATE_SPACE, MAX_METADATA_LEN, PROPERTY_ACCOUNT_SPACE,
    PROPERTY_FIXED_SPACE, SCALE, TITLE_AMOUNT,
};
