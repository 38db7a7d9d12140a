//! Custody addressing: the accounts that only the program itself can sign for.
//!
//! A custody account has no private key. Its address is derived from a fixed
//! tag, the key of the asset or record it belongs to and a one-byte salt, and
//! the program authorizes a movement out of it by presenting exactly those
//! three seeds.

use vstd::prelude::*;
use crate::keys::Address;
use crate::state::PropertyAccount;
use anchor_lang::prelude::Pubkey;

verus! {

/// The custody accounts of a property.
#[derive(Clone, Copy, Debug, PartialEq, Eq, Structural)]
pub enum CustodyKind {
    /// The authority over the share token, derived from the property's key.
    FractionAuthority,
    /// The custody of deposited rent, derived from the share token's key.
    RentVault,
    /// The custody of the title, derived from the title token's key.
    NftVault,
}

impl CustodyKind {
    /// The tag of the custody: the ASCII bytes of `fraction_authority`,
    /// `rent_vault` or `nft_vault`.
    pub open spec fn spec_seed_tag(self) -> Seq<u8> {
        match self {
            CustodyKind::FractionAuthority => seq![
                102u8, 114u8, 97u8, 99u8, 116u8, 105u8, 111u8, 110u8, 95u8, 97u8, 117u8, 116u8,
                104u8, 111u8, 114u8, 105u8, 116u8, 121u8,
            ],
            CustodyKind::RentVault => seq![
                114u8, 101u8, 110u8, 116u8, 95u8, 118u8, 97u8, 117u8, 108u8, 116u8,
            ],
            CustodyKind::NftVault => seq![
                110u8, 102u8, 116u8, 95u8, 118u8, 97u8, 117u8, 108u8, 116u8,
            ],
        }
    }

    /// The key that the custody of a property is derived from: the
    /// property's own key for the authority over its shares, the key of its
    /// share token for the rent custody, the key of its title token for the
    /// title custody.
    pub open spec fn spec_seed_key(self, property: &PropertyAccount) -> Address {
        match self {
            CustodyKind::FractionAuthority => property.property_key,
            CustodyKind::RentVault => property.fraction_mint,
            CustodyKind::NftVault => property.nft_mint,
        }
    }

    /// The key that the custody of a property is derived from.
    #[verifier::when_used_as_spec(spec_seed_key)]
    pub fn seed_key(self, property: &PropertyAccount) -> (r: Address)
        ensures
            r == self.spec_seed_key(property),
    {
        match self {
            CustodyKind::FractionAuthority => property.property_key,
            CustodyKind::RentVault => property.fraction_mint,
            CustodyKind::NftVault => property.nft_mint,
        }
    }

    /// The tag of the custody, as bytes.
    pub fn seed_tag(self) -> (r: Vec<u8>)
        ensures
            r@ == self.spec_seed_tag(),
    {
        let tag = match self {
            CustodyKind::FractionAuthority => vec![
                102u8, 114u8, 97u8, 99u8, 116u8, 105u8, 111u8, 110u8, 95u8, 97u8, 117u8, 116u8,
                104u8, 111u8, 114u8, 105u8, 116u8, 121u8,
            ],
            CustodyKind::RentVault => vec![
                114u8, 101u8, 110u8, 116u8, 95u8, 118u8, 97u8, 117u8, 108u8, 116u8,
            ],
            CustodyKind::NftVault => vec![
                110u8, 102u8, 116u8, 95u8, 118u8, 97u8, 117u8, 108u8, 116u8,
            ],
        };
        assert(tag@ =~= self.spec_seed_tag());
        tag
    }
}

/// A custody account: its address, and the three seeds that it is signed
/// for with.
#[derive(Clone, Debug, PartialEq, Eq)]
pub struct Custody {
    pub address: Address,
    pub tag: Vec<u8>,
    pub key: Address,
    pub bump: u8,
}

/// What `Pubkey::try_find_program_address` returns for the given seeds and
/// program: the bytes of the derived address and the salt that it was found
/// with, or nothing where no salt yields an address.
pub uninterp spec fn derived_address(seeds: Seq<Seq<u8>>, program_id: Seq<u8>) -> Option<
    (Seq<u8>, u8),
>;

/// What is derived for a custody of the given kind.
pub open spec fn custody_address(kind: CustodyKind, key: Address, program_id: Address) -> Option<
    (Seq<u8>, u8),
> {
    derived_address(seq![kind.spec_seed_tag(), key.bytes@], program_id.bytes@)
}

/// Calls `Pubkey::try_find_program_address` with the two seeds `tag` and
/// `key`. The derivation hashes its arguments and reads nothing else, so
/// what comes back is the result named by [`derived_address`]; the address
/// is handed on as its 32 bytes.
#[verifier::external_body]
fn find_program_address(tag: &Vec<u8>, key: &Address, program_id: &Address) -> (r: Option<
    (Address, u8),
>)
    ensures
        match r {
            Some((address, salt)) => derived_address(seq![tag@, key.bytes@], program_id.bytes@)
                == Some((address.bytes@, salt)),
            None => derived_address(seq![tag@, key.bytes@], program_id.bytes@) is None,
        },
{
    let program = Pubkey::new_from_array(program_id.bytes);
    match Pubkey::try_find_program_address(&[tag.as_slice(), &key.bytes], &program) {
        Some((address, salt)) => Some((Address { bytes: address.to_bytes() }, salt)),
        None => None,
    }
}

/// Puts a custody together from the outcome of a derivation: the address
/// that was found, and as seeds the kind's tag, the key and the salt. Where
/// nothing was found there is no custody.
pub fn custody_from(kind: CustodyKind, key: Address, found: Option<(Address, u8)>) -> (r: Option<
    Custody,
>)
    ensures
        found is None <==> r is None,
        found matches Some((address, salt)) ==> {
            &&& r is Some
            &&& r->0.address == address
            &&& r->0.tag@ == kind.spec_seed_tag()
            &&& r->0.key == key
            &&& r->0.bump == salt
        },
{
    match found {
        Some((address, salt)) => Some(Custody { address, tag: kind.seed_tag(), key, bump: salt }),
        None => None,
    }
}

/// Derives the custody of the given kind that belongs to `key` under the
/// program `program_id`.
pub fn find_custody(kind: CustodyKind, key: &Address, program_id: &Address) -> (r: Option<Custody>)
    ensures
        custody_address(kind, *key, *program_id) is None <==> r is None,
        r matches Some(custody) ==> {
            &&& custody_address(kind, *key, *program_id) == Some(
                (custody.address.bytes@, custody.bump),
            )
            &&& custody.tag@ == kind.spec_seed_tag()
            &&& custody.key == *key
        },
{
    let tag = kind.seed_tag();
    let found = find_program_address(&tag, key, program_id);
    custody_from(kind, *key, found)
}

/// Derives the custody of the given kind of a property.
pub fn find_property_custody(
    kind: CustodyKind,
    property: &PropertyAccount,
    program_id: &Address,
) -> (r: Option<Custody>)
    ensures
        custody_address(kind, kind.seed_key(property), *program_id) is None <==> r is None,
        r matches Some(custody) ==> {
            &&& custody_address(kind, kind.seed_key(property), *program_id) == Some(
                (custody.address.bytes@, custody.bump),
            )
            &&& custody.tag@ == kind.spec_seed_tag()
            &&& custody.key == kind.seed_key(property)
        },
{
    let key = kind.seed_key(property);
    find_custody(kind, &key, program_id)
}

/// Whether `candidate` is the address of the custody of the given kind that
/// belongs to `key`: only then may the program move funds out of it.
pub fn is_custody(candidate: &Address, kind: CustodyKind, key: &Address, program_id: &Address) -> (r:
    bool)
    ensures
        r <==> (custody_address(kind, *key, *program_id) matches Some((bytes, _)) && bytes
            == candidate.bytes@),
{
    match find_custody(kind, key, program_id) {
        Some(custody) => {
            let same = custody.address.same(candidate);
            proof {
                if custody.address.bytes@ == candidate.bytes@ {
                    assert(custody.address.bytes =~= candidate.bytes);
                }
            }
            same
        },
        None => false,
    }
}

} // verus!
