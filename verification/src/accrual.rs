//! The accrual engine: the index that turns a deposit of rent into an
//! entitlement of every share, in constant time.

use vstd::prelude::*;
use crate::errors::ErrorCode;
use crate::state::{PropertyAccount, SCALE};

verus! {

/// By how much a deposit of `amount` payable units raises the index of a
/// property with `total_fractions` shares: the amount per share, scaled and
/// rounded down. What the division leaves over is lost to the holders for
/// good.
pub open spec fn rent_increment(amount: u64, total_fractions: u64) -> int
    recommends
        total_fractions > 0,
{
    (amount as int * SCALE as int) / (total_fractions as int)
}

/// What a deposit of `amount` payable units makes of a property's record, or
/// why it is refused.
pub open spec fn deposit_outcome(property: PropertyAccount, amount: u64) -> Result<
    PropertyAccount,
    ErrorCode,
> {
    if property.total_fractions == 0 {
        Err(ErrorCode::NoFractions)
    } else if property.cum_rent_per_share + rent_increment(amount, property.total_fractions)
        > u128::MAX {
        Err(ErrorCode::NumericOverflow)
    } else {
        Ok(
            PropertyAccount {
                cum_rent_per_share: (property.cum_rent_per_share + rent_increment(
                    amount,
                    property.total_fractions,
                )) as u128,
                ..property
            },
        )
    }
}

/// The record after a deposit: a refused deposit leaves it as it was.
pub open spec fn after_deposit(property: PropertyAccount, amount: u64) -> PropertyAccount {
    match deposit_outcome(property, amount) {
        Ok(after) => after,
        Err(_) => property,
    }
}

/// The record after a run of deposits, accepted or refused.
pub open spec fn after_deposits(property: PropertyAccount, amounts: Seq<u64>) -> PropertyAccount
    decreases amounts.len(),
{
    if amounts.len() == 0 {
        property
    } else {
        after_deposit(after_deposits(property, amounts.drop_last()), amounts.last())
    }
}

/// A deposit never lowers the index, and changes nothing else.
pub proof fn lemma_deposit_raises_index(property: PropertyAccount, amount: u64)
    ensures
        after_deposit(property, amount).cum_rent_per_share >= property.cum_rent_per_share,
        after_deposit(property, amount) == (PropertyAccount {
            cum_rent_per_share: after_deposit(property, amount).cum_rent_per_share,
            ..property
        }),
{
    if property.total_fractions > 0 {
        let scaled = amount as int * SCALE as int;
        let total = property.total_fractions as int;
        assert(scaled / total >= 0) by (nonlinear_arith)
            requires
                scaled >= 0,
                total > 0,
        ;
    }
}

/// Monotonicity: over any run of deposits, accepted or refused, the index
/// never goes down. It is at least what it was at the start, and at least
/// what it was after any part of the run.
pub proof fn lemma_index_never_decreases(property: PropertyAccount, amounts: Seq<u64>)
    ensures
        after_deposits(property, amounts).cum_rent_per_share >= property.cum_rent_per_share,
        after_deposits(property, amounts).total_fractions == property.total_fractions,
        forall|n: int|
            0 <= n <= amounts.len() ==> after_deposits(property, amounts).cum_rent_per_share
                >= (#[trigger] after_deposits(property, amounts.take(n))).cum_rent_per_share,
    decreases amounts.len(),
{
    if amounts.len() == 0 {
        assert forall|n: int| 0 <= n <= amounts.len() implies after_deposits(
            property,
            amounts,
        ).cum_rent_per_share >= (#[trigger] after_deposits(
            property,
            amounts.take(n),
        )).cum_rent_per_share by {
            assert(amounts.take(n) =~= amounts);
        }
    } else {
        let front = amounts.drop_last();
        lemma_index_never_decreases(property, front);
        lemma_deposit_raises_index(after_deposits(property, front), amounts.last());
        assert forall|n: int| 0 <= n <= amounts.len() implies after_deposits(
            property,
            amounts,
        ).cum_rent_per_share >= (#[trigger] after_deposits(
            property,
            amounts.take(n),
        )).cum_rent_per_share by {
            if n == amounts.len() {
                assert(amounts.take(n) =~= amounts);
            } else {
                assert(amounts.take(n) =~= front.take(n));
            }
        }
    }
}

/// A deposit of rent for one property.
#[derive(Clone, Debug, PartialEq, Eq)]
pub struct DepositRent {
    pub property_account: PropertyAccount,
}

/// Takes a deposit of `amount` payable units into account: the property's
/// index rises by [`rent_increment`].
///
/// Fails with `NoFractions` where the property has no shares to divide the
/// rent by, and with `NumericOverflow` where the index would leave its 128
/// bits; a refused deposit changes nothing. The index never goes down. The
/// funds themselves are moved into custody by the caller.
pub fn deposit_rent(ctx: &mut DepositRent, amount: u64) -> (r: Result<(), ErrorCode>)
    ensures
        match deposit_outcome(old(ctx).property_account, amount) {
            Ok(property) => r is Ok && *final(ctx) == (DepositRent { property_account: property }),
            Err(e) => r == Err::<(), ErrorCode>(e) && *final(ctx) == *old(ctx),
        },
        final(ctx).property_account == after_deposit(old(ctx).property_account, amount),
        final(ctx).property_account.cum_rent_per_share >= old(
            ctx,
        ).property_account.cum_rent_per_share,
{
    proof {
        lemma_deposit_raises_index(ctx.property_account, amount);
    }
    let total = ctx.property_account.total_fractions as u128;
    if total == 0 {
        return Err(ErrorCode::NoFractions);
    }
    let scaled: u128 = (amount as u128) * SCALE;
    let increment: u128 = scaled / total;
    match ctx.property_account.cum_rent_per_share.checked_add(increment) {
        Some(index) => {
            ctx.property_account.cum_rent_per_share = index;
            Ok(())
        },
        None => Err(ErrorCode::NumericOverflow),
    }
}

} // verus!
