use anchor_lang::prelude::Pubkey;
use rwa::custody::{
    custody_from, find_custody, find_property_custody, is_custody, Custody, CustodyKind,
};
use rwa::errors::ErrorCode;
use rwa::keys::Address;
use rwa::lifecycle::{
    deposit_nft_into_vault, initialize_property, unlock_nft, DepositNftIntoVault,
    InitializeProperty, UnlockNft,
};
use rwa::settlement::{burn_fractions, BurnFractions};
use rwa::state::{
    HolderState, PropertyAccount, HOLDER_STATE_SPACE, MAX_METADATA_LEN, PROPERTY_ACCOUNT_SPACE,
    PROPERTY_FIXED_SPACE, TITLE_AMOUNT,
};

fn addr(n: u8) -> Address {
    Address::new([n; 32])
}

fn record() -> PropertyAccount {
    PropertyAccount {
        property_key: addr(1),
        authority: addr(2),
        nft_mint: addr(3),
        fraction_mint: addr(4),
        total_fractions: 1000,
        fraction_decimal: 6,
        cum_rent_per_share: 0,
        bump: 250,
        metadata_uri: String::from("ipfs://deed"),
    }
}

#[test]
fn addresses_compare_by_their_bytes() {
    let mut bytes = [7u8; 32];
    assert!(addr(7).same(&Address::new(bytes)));
    bytes[31] = 8;
    assert!(!addr(7).same(&Address::new(bytes)));
    assert_eq!(Address::new(bytes).bytes, bytes);
}

#[test]
fn new_property_starts_with_index_zero() {
    let ctx = InitializeProperty {
        property_key: addr(1),
        authority: addr(2),
        nft_mint: addr(3),
        fraction_mint: addr(4),
        bump: 250,
    };
    assert_eq!(initialize_property(&ctx, String::from("ipfs://deed"), 1000, 6), Ok(record()));
}

#[test]
fn descriptive_string_is_bounded_in_bytes() {
    let ctx = InitializeProperty {
        property_key: addr(1),
        authority: addr(2),
        nft_mint: addr(3),
        fraction_mint: addr(4),
        bump: 250,
    };
    assert_eq!(MAX_METADATA_LEN, 200);
    let longest = "x".repeat(200);
    let made = initialize_property(&ctx, longest.clone(), 1, 0).unwrap();
    assert_eq!(made.metadata_uri, longest);
    assert_eq!(
        initialize_property(&ctx, "x".repeat(201), 1, 0),
        Err(ErrorCode::AccountDidNotSerialize)
    );
    // 67 three-byte characters take 201 bytes
    assert_eq!(
        initialize_property(&ctx, "\u{20ac}".repeat(67), 1, 0),
        Err(ErrorCode::AccountDidNotSerialize)
    );
    assert!(initialize_property(&ctx, "\u{20ac}".repeat(66), 1, 0).is_ok());
}

#[test]
fn records_have_their_room() {
    assert_eq!(PROPERTY_FIXED_SPACE, 166);
    assert_eq!(PROPERTY_ACCOUNT_SPACE, 366);
    assert_eq!(HOLDER_STATE_SPACE, 113);
    assert_eq!(TITLE_AMOUNT, 1);
}

#[test]
fn title_custody_must_hold_exactly_one_title() {
    let mut ctx = DepositNftIntoVault { property_account: record(), nft_mint: addr(3), nft_vault_amount: 1 };
    assert_eq!(deposit_nft_into_vault(&ctx), Ok(()));
    ctx.nft_vault_amount = 0;
    assert_eq!(deposit_nft_into_vault(&ctx), Err(ErrorCode::InvalidNftVaultAmount));
    ctx.nft_vault_amount = 2;
    assert_eq!(deposit_nft_into_vault(&ctx), Err(ErrorCode::InvalidNftVaultAmount));
}

#[test]
fn title_custody_must_hold_the_propertys_title() {
    let ctx = DepositNftIntoVault { property_account: record(), nft_mint: addr(9), nft_vault_amount: 1 };
    assert_eq!(deposit_nft_into_vault(&ctx), Err(ErrorCode::RequireKeysEqViolated));
    let both = DepositNftIntoVault { property_account: record(), nft_mint: addr(9), nft_vault_amount: 0 };
    assert_eq!(deposit_nft_into_vault(&both), Err(ErrorCode::RequireKeysEqViolated));
}

#[test]
fn title_is_released_only_after_the_last_share_is_burned() {
    let mut supply: u64 = 1;
    let locked = UnlockNft { property_account: record(), authority: addr(2), fraction_supply: supply };
    assert_eq!(unlock_nft(&locked), Err(ErrorCode::FractionsNotBurned));

    let mut burn = BurnFractions {
        property_account: record(),
        holder_state: HolderState {
            holder: addr(10),
            property: addr(1),
            balance: 1,
            reward_debt: 0,
            unclaimed: 0,
            bump: 1,
        },
    };
    assert_eq!(burn_fractions(&mut burn, 1), Ok(()));
    supply -= 1;
    assert_eq!(burn.holder_state.balance, 0);

    let free = UnlockNft { property_account: record(), authority: addr(2), fraction_supply: supply };
    assert_eq!(unlock_nft(&free), Ok(()));
    assert_eq!(free.property_account, record());
}

#[test]
fn title_is_released_to_the_authority_only() {
    let stranger = UnlockNft { property_account: record(), authority: addr(5), fraction_supply: 0 };
    assert_eq!(unlock_nft(&stranger), Err(ErrorCode::Unauthorized));
    let stranger_early = UnlockNft { property_account: record(), authority: addr(5), fraction_supply: 3 };
    assert_eq!(unlock_nft(&stranger_early), Err(ErrorCode::Unauthorized));
}

#[test]
fn every_refusal_has_its_sentence() {
    assert_eq!(ErrorCode::NumericOverflow.message(), "Numeric overflow occurred");
    assert_eq!(ErrorCode::Unauthorized.message(), "Unauthorized");
    assert_eq!(ErrorCode::InvalidNftVaultAmount.message(), "Invalid NFT vault amount");
    assert_eq!(ErrorCode::NoFractions.message(), "No fractions minted");
    assert_eq!(ErrorCode::NoPendingRewards.message(), "No pending rewards");
    assert_eq!(ErrorCode::InsufficientFunds.message(), "Insufficient fraction balance");
    assert_eq!(
        ErrorCode::FractionsNotBurned.message(),
        "Fractions must be fully burned before unlocking NFT"
    );
    assert_eq!(
        ErrorCode::RequireKeysEqViolated.message(),
        "A require_keys_eq expression was violated"
    );
    assert_eq!(ErrorCode::AccountDidNotSerialize.message(), "Failed to serialize the account");
}

#[test]
fn custody_tags_are_the_ascii_names() {
    assert_eq!(CustodyKind::FractionAuthority.seed_tag(), b"fraction_authority".to_vec());
    assert_eq!(CustodyKind::RentVault.seed_tag(), b"rent_vault".to_vec());
    assert_eq!(CustodyKind::NftVault.seed_tag(), b"nft_vault".to_vec());
}

#[test]
fn custody_is_put_together_from_what_was_derived() {
    assert_eq!(custody_from(CustodyKind::NftVault, addr(3), None), None);
    assert_eq!(
        custody_from(CustodyKind::NftVault, addr(3), Some((addr(8), 253))),
        Some(Custody { address: addr(8), tag: b"nft_vault".to_vec(), key: addr(3), bump: 253 })
    );
}

#[test]
fn custody_address_is_the_program_derived_address() {
    let program = addr(42);
    let mint = addr(4);
    let custody = find_custody(CustodyKind::RentVault, &mint, &program).unwrap();
    let (expected, bump) = Pubkey::find_program_address(
        &[b"rent_vault", &mint.bytes],
        &Pubkey::new_from_array(program.bytes),
    );
    assert_eq!(custody.address.bytes, expected.to_bytes());
    assert_eq!(custody.bump, bump);
    assert_eq!(custody.tag, b"rent_vault".to_vec());
    assert_eq!(custody.key, mint);
    assert_ne!(custody.address, mint);
    assert_ne!(custody.address, program);

    // the seeds with the salt lead back to the address
    let again = Pubkey::create_program_address(
        &[&custody.tag, &custody.key.bytes, &[custody.bump]],
        &Pubkey::new_from_array(program.bytes),
    )
    .unwrap();
    assert_eq!(again.to_bytes(), custody.address.bytes);
}

#[test]
fn custody_addresses_differ_by_kind_key_and_program() {
    let a = find_custody(CustodyKind::RentVault, &addr(4), &addr(42)).unwrap();
    let b = find_custody(CustodyKind::NftVault, &addr(4), &addr(42)).unwrap();
    let c = find_custody(CustodyKind::RentVault, &addr(5), &addr(42)).unwrap();
    let d = find_custody(CustodyKind::RentVault, &addr(4), &addr(43)).unwrap();
    assert_ne!(a.address, b.address);
    assert_ne!(a.address, c.address);
    assert_ne!(a.address, d.address);
    assert_eq!(a, find_custody(CustodyKind::RentVault, &addr(4), &addr(42)).unwrap());
}

#[test]
fn only_the_derived_address_is_the_custody() {
    let custody = find_custody(CustodyKind::FractionAuthority, &addr(1), &addr(42)).unwrap();
    assert!(is_custody(&custody.address, CustodyKind::FractionAuthority, &addr(1), &addr(42)));
    assert!(!is_custody(&custody.address, CustodyKind::NftVault, &addr(1), &addr(42)));
    assert!(!is_custody(&addr(1), CustodyKind::FractionAuthority, &addr(1), &addr(42)));
}

#[test]
fn each_custody_of_a_property_has_its_own_seed_key() {
    let p = record();
    assert_eq!(CustodyKind::FractionAuthority.seed_key(&p), addr(1));
    assert_eq!(CustodyKind::RentVault.seed_key(&p), addr(4));
    assert_eq!(CustodyKind::NftVault.seed_key(&p), addr(3));

    let program = addr(42);
    for kind in [CustodyKind::FractionAuthority, CustodyKind::RentVault, CustodyKind::NftVault] {
        assert_eq!(
            find_property_custody(kind, &p, &program),
            find_custody(kind, &kind.seed_key(&p), &program)
        );
    }
    let vault = find_property_custody(CustodyKind::NftVault, &p, &program).unwrap();
    let (expected, bump) = Pubkey::find_program_address(
        &[b"nft_vault", &[3u8; 32]],
        &Pubkey::new_from_array([42u8; 32]),
    );
    assert_eq!((vault.address.bytes, vault.bump), (expected.to_bytes(), bump));
}
