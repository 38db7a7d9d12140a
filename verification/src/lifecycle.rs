//! The life of a property: the creation of its record, the check that the
//! title is in custody, and the release of the title once every share is
//! retired.

use vstd::prelude::*;
use crate::errors::ErrorCode;
use crate::keys::Address;
use crate::state::{
    PropertyAccount, MAX_METADATA_LEN, PROPERTY_ACCOUNT_SPACE, PROPERTY_FIXED_SPACE,
    TITLE_AMOUNT,
};

verus! {

/// The creation of a property's record.
#[derive(Clone, Copy, Debug, PartialEq, Eq)]
pub struct InitializeProperty {
    /// The key under which the record will live.
    pub property_key: Address,
    /// Who creates the property, and will be its authority.
    pub authority: Address,
    /// The unique title token.
    pub nft_mint: Address,
    /// The share token that is created along with the record.
    pub fraction_mint: Address,
    /// The salt of the record's derived address.
    pub bump: u8,
}

/// The check that the title has arrived in custody.
#[derive(Clone, Debug, PartialEq, Eq)]
pub struct DepositNftIntoVault {
    pub property_account: PropertyAccount,
    /// The token that the title custody holds.
    pub nft_mint: Address,
    /// How many of that token the title custody holds.
    pub nft_vault_amount: u64,
}

/// The release of the title to the authority.
#[derive(Clone, Debug, PartialEq, Eq)]
pub struct UnlockNft {
    pub property_account: PropertyAccount,
    /// Who asks for the title.
    pub authority: Address,
    /// How many shares are outstanding.
    pub fraction_supply: u64,
}

/// The number of bytes that a descriptive string takes in a record: the
/// length of its UTF-8 encoding.
pub open spec fn metadata_len(text: Seq<char>) -> nat {
    vstd::utf8::encode_utf8(text).len()
}

/// The room that a record with the given descriptive string takes.
pub open spec fn property_space(text: Seq<char>) -> nat {
    PROPERTY_FIXED_SPACE as nat + metadata_len(text)
}

/// Makes the record of a new property: no rent has been deposited yet, so
/// its index is zero.
///
/// Fails with `AccountDidNotSerialize` where the descriptive string takes
/// more than [`MAX_METADATA_LEN`] bytes, which is all that the record has
/// room for: a record that is made fits in [`PROPERTY_ACCOUNT_SPACE`]. The
/// share token and the two custody accounts are created by the caller.
pub fn initialize_property(
    ctx: &InitializeProperty,
    metadata_uri: String,
    total_fractions: u64,
    fraction_decimal: u8,
) -> (r: Result<PropertyAccount, ErrorCode>)
    ensures
        metadata_len(metadata_uri@) > MAX_METADATA_LEN ==> r == Err::<
            PropertyAccount,
            ErrorCode,
        >(ErrorCode::AccountDidNotSerialize),
        metadata_len(metadata_uri@) <= MAX_METADATA_LEN ==> r == Ok::<
            PropertyAccount,
            ErrorCode,
        >(
            PropertyAccount {
                property_key: ctx.property_key,
                authority: ctx.authority,
                nft_mint: ctx.nft_mint,
                fraction_mint: ctx.fraction_mint,
                total_fractions,
                fraction_decimal,
                cum_rent_per_share: 0,
                bump: ctx.bump,
                metadata_uri,
            },
        ),
        r is Ok <==> property_space(metadata_uri@) <= PROPERTY_ACCOUNT_SPACE,
{
    if metadata_uri.as_str().as_bytes().len() > MAX_METADATA_LEN {
        return Err(ErrorCode::AccountDidNotSerialize);
    }
    Ok(
        PropertyAccount {
            property_key: ctx.property_key,
            authority: ctx.authority,
            nft_mint: ctx.nft_mint,
            fraction_mint: ctx.fraction_mint,
            total_fractions,
            fraction_decimal,
            cum_rent_per_share: 0,
            bump: ctx.bump,
            metadata_uri,
        },
    )
}

/// Checks that the title custody holds the property's title, and exactly one
/// of it.
///
/// Fails with `RequireKeysEqViolated` where the custody's token is not the
/// property's title token, and otherwise with `InvalidNftVaultAmount` where
/// the custody does not hold exactly one.
pub fn deposit_nft_into_vault(ctx: &DepositNftIntoVault) -> (r: Result<(), ErrorCode>)
    ensures
        ctx.property_account.nft_mint != ctx.nft_mint ==> r == Err::<(), ErrorCode>(
            ErrorCode::RequireKeysEqViolated,
        ),
        ctx.property_account.nft_mint == ctx.nft_mint && ctx.nft_vault_amount != TITLE_AMOUNT
            ==> r == Err::<(), ErrorCode>(ErrorCode::InvalidNftVaultAmount),
        ctx.property_account.nft_mint == ctx.nft_mint && ctx.nft_vault_amount == TITLE_AMOUNT
            ==> r is Ok,
{
    if !ctx.property_account.nft_mint.same(&ctx.nft_mint) {
        return Err(ErrorCode::RequireKeysEqViolated);
    }
    if ctx.nft_vault_amount != TITLE_AMOUNT {
        return Err(ErrorCode::InvalidNftVaultAmount);
    }
    Ok(())
}

/// Decides whether the title may go back to the authority.
///
/// Fails with `Unauthorized` where the caller is not the property's
/// authority, and otherwise with `FractionsNotBurned` while a single share is
/// outstanding. On success the caller moves the title, all [`TITLE_AMOUNT`]
/// of it, out of custody. The record is not closed: it stays as it is.
pub fn unlock_nft(ctx: &UnlockNft) -> (r: Result<(), ErrorCode>)
    ensures
        ctx.authority != ctx.property_account.authority ==> r == Err::<(), ErrorCode>(
            ErrorCode::Unauthorized,
        ),
        ctx.authority == ctx.property_account.authority && ctx.fraction_supply != 0
            ==> r == Err::<(), ErrorCode>(ErrorCode::FractionsNotBurned),
        ctx.authority == ctx.property_account.authority && ctx.fraction_supply == 0 ==> r is Ok,
{
    if !ctx.authority.same(&ctx.property_account.authority) {
        return Err(ErrorCode::Unauthorized);
    }
    if ctx.fraction_supply != 0 {
        return Err(ErrorCode::FractionsNotBurned);
    }
    Ok(())
}

} // verus!
