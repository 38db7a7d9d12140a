//! Settle-then-mutate: the step that every change of a holder's balance goes
//! through, and the operations that change balances.
//!
//! Before a balance moves, what the old balance has earned is set aside as
//! unclaimed; after it has moved, the debt is recomputed from the new balance.
//! Done in this order, a holder is owed exactly what the shares earned while
//! they were held. An operation that is refused changes nothing.

use vstd::prelude::*;
use crate::errors::ErrorCode;
use crate::keys::Address;
use crate::state::{HolderState, PropertyAccount};

verus! {

/// Whether the debt of `balance` shares at `index` fits in 128 bits.
pub open spec fn debt_fits(balance: int, index: u128) -> bool {
    balance * index as int <= u128::MAX
}

/// A smaller balance has a smaller debt.
pub proof fn lemma_debt_monotone(less: int, more: int, index: u128)
    requires
        0 <= less <= more,
    ensures
        0 <= less * index as int <= more * index as int,
{
    assert(0 <= less * index as int <= more * index as int) by (nonlinear_arith)
        requires
            0 <= less <= more,
            0 <= index as int,
    ;
}

/// The debt of `balance` shares at `index`, or `NumericOverflow` where it
/// does not fit.
pub fn reward_debt_at(balance: u64, index: u128) -> (r: Result<u128, ErrorCode>)
    ensures
        debt_fits(balance as int, index) ==> r == Ok::<u128, ErrorCode>(
            (balance as int * index as int) as u128,
        ),
        !debt_fits(balance as int, index) ==> r == Err::<u128, ErrorCode>(
            ErrorCode::NumericOverflow,
        ),
{
    match (balance as u128).checked_mul(index) {
        Some(debt) => Ok(debt),
        None => Err(ErrorCode::NumericOverflow),
    }
}

impl HolderState {
    /// What the holder is owed at `index`, scaled, or `NumericOverflow` where
    /// the accrual or the sum does not fit in 128 bits.
    pub fn owed_at(&self, index: u128) -> (r: Result<u128, ErrorCode>)
        ensures
            self.settles(index) ==> r == Ok::<u128, ErrorCode>(self.owed(index) as u128),
            !self.settles(index) ==> r == Err::<u128, ErrorCode>(ErrorCode::NumericOverflow),
    {
        let accrued = match reward_debt_at(self.balance, index) {
            Ok(accrued) => accrued,
            Err(e) => { return Err(e); },
        };
        let pending = accrued.checked_sub(self.reward_debt).unwrap_or(0u128);
        match self.unclaimed.checked_add(pending) {
            Some(owed) => Ok(owed),
            None => Err(ErrorCode::NumericOverflow),
        }
    }

    /// Settles the record at `index` and sets its balance to `balance`: what
    /// the old balance has earned is added to the unclaimed yield, and the
    /// debt becomes that of the new balance. Fails with `NumericOverflow`,
    /// and changes nothing, where one of the three numbers does not fit.
    pub fn settle(&mut self, index: u128, balance: u64) -> (r: Result<(), ErrorCode>)
        ensures
            r is Ok <==> old(self).settles(index) && debt_fits(balance as int, index),
            r is Ok ==> *final(self) == old(self).settled(index, balance),
            r is Err ==> r == Err::<(), ErrorCode>(ErrorCode::NumericOverflow) && *final(self)
                == *old(self),
    {
        let owed = match self.owed_at(index) {
            Ok(owed) => owed,
            Err(e) => { return Err(e); },
        };
        let debt = match reward_debt_at(balance, index) {
            Ok(debt) => debt,
            Err(e) => { return Err(e); },
        };
        self.unclaimed = owed;
        self.balance = balance;
        self.reward_debt = debt;
        Ok(())
    }
}

/// Idempotence: once a record was settled at an index, settling it again at
/// that index, with the balance as the first settlement left it, succeeds and
/// changes nothing.
pub proof fn lemma_settle_twice(holder: HolderState, index: u128, balance: u64)
    requires
        holder.settles(index),
        debt_fits(balance as int, index),
    ensures
        holder.settled(index, balance).up_to_date(index),
        holder.settled(index, balance).pending(index) == 0,
        holder.settled(index, balance).settles(index),
        holder.settled(index, balance).settled(index, balance) == holder.settled(index, balance),
{
    lemma_debt_monotone(0, balance as int, index);
}

/// What a credit of `amount` shares does to a holder's record at `index`.
pub open spec fn credit_outcome(holder: HolderState, index: u128, amount: u64) -> Result<
    HolderState,
    ErrorCode,
> {
    if !holder.settles(index) || holder.balance + amount > u64::MAX || !debt_fits(
        holder.balance + amount,
        index,
    ) {
        Err(ErrorCode::NumericOverflow)
    } else {
        Ok(holder.settled(index, (holder.balance + amount) as u64))
    }
}

/// What a debit of `amount` shares does to a holder's record at `index`.
pub open spec fn debit_outcome(holder: HolderState, index: u128, amount: u64) -> Result<
    HolderState,
    ErrorCode,
> {
    if !holder.settles(index) {
        Err(ErrorCode::NumericOverflow)
    } else if amount > holder.balance {
        Err(ErrorCode::InsufficientFunds)
    } else {
        Ok(holder.settled(index, (holder.balance - amount) as u64))
    }
}

/// What every accepted credit and debit leaves behind: the balance has moved
/// by the amount, what the old balance had earned is set aside as unclaimed,
/// and the record is up to date at the index. So a movement of shares
/// neither adds to nor takes from what the holder is owed at that moment.
pub proof fn lemma_credit_and_debit(holder: HolderState, index: u128, amount: u64)
    ensures
        credit_outcome(holder, index, amount) matches Ok(after) ==> {
            &&& after.balance == holder.balance + amount
            &&& after.unclaimed == holder.owed(index)
            &&& after.up_to_date(index)
            &&& after.owed(index) == holder.owed(index)
        },
        debit_outcome(holder, index, amount) matches Ok(after) ==> {
            &&& after.balance == holder.balance - amount
            &&& after.unclaimed == holder.owed(index)
            &&& after.up_to_date(index)
            &&& after.owed(index) == holder.owed(index)
        },
{
    if let Ok(after) = credit_outcome(holder, index, amount) {
        lemma_debt_monotone(0, after.balance as int, index);
    }
    if let Ok(after) = debit_outcome(holder, index, amount) {
        lemma_debt_monotone(after.balance as int, holder.balance as int, index);
    }
    lemma_debt_monotone(0, holder.balance as int, index);
}

/// What a transfer of `amount` shares does to the two records. Both are
/// settled before the shares are counted, so an overflow in either
/// settlement is reported before a shortage of shares.
pub open spec fn transfer_outcome(
    source: HolderState,
    dest: HolderState,
    index: u128,
    amount: u64,
) -> Result<(HolderState, HolderState), ErrorCode> {
    if !source.settles(index) || !dest.settles(index) {
        Err(ErrorCode::NumericOverflow)
    } else {
        match (debit_outcome(source, index, amount), credit_outcome(dest, index, amount)) {
            (Err(e), _) => Err(e),
            (Ok(_), Err(e)) => Err(e),
            (Ok(s), Ok(d)) => Ok((s, d)),
        }
    }
}

/// What a sale of `amount` shares does to the two records. The seller's
/// record is done with before the buyer's is looked at.
pub open spec fn sale_outcome(
    seller: HolderState,
    buyer: HolderState,
    index: u128,
    amount: u64,
) -> Result<(HolderState, HolderState), ErrorCode> {
    match (debit_outcome(seller, index, amount), credit_outcome(buyer, index, amount)) {
        (Err(e), _) => Err(e),
        (Ok(_), Err(e)) => Err(e),
        (Ok(s), Ok(b)) => Ok((s, b)),
    }
}

/// What a mint of `amount` shares by `caller` does to the destination's
/// record.
pub open spec fn mint_outcome(
    property: PropertyAccount,
    caller: Address,
    destination: HolderState,
    amount: u64,
) -> Result<HolderState, ErrorCode> {
    if caller != property.authority {
        Err(ErrorCode::Unauthorized)
    } else {
        credit_outcome(destination, property.cum_rent_per_share, amount)
    }
}

impl HolderState {
    /// Settles the record at `index` and adds `amount` shares to it.
    pub fn credit(&mut self, index: u128, amount: u64) -> (r: Result<(), ErrorCode>)
        ensures
            match credit_outcome(*old(self), index, amount) {
                Ok(after) => r is Ok && *final(self) == after,
                Err(e) => r == Err::<(), ErrorCode>(e) && *final(self) == *old(self),
            },
    {
        let balance = match self.balance.checked_add(amount) {
            Some(balance) => balance,
            None => { return Err(ErrorCode::NumericOverflow); },
        };
        self.settle(index, balance)
    }

    /// Settles the record at `index` and takes `amount` shares from it.
    pub fn debit(&mut self, index: u128, amount: u64) -> (r: Result<(), ErrorCode>)
        ensures
            match debit_outcome(*old(self), index, amount) {
                Ok(after) => r is Ok && *final(self) == after,
                Err(e) => r == Err::<(), ErrorCode>(e) && *final(self) == *old(self),
            },
    {
        if self.owed_at(index).is_err() {
            return Err(ErrorCode::NumericOverflow);
        }
        let balance = match self.balance.checked_sub(amount) {
            Some(balance) => balance,
            None => { return Err(ErrorCode::InsufficientFunds); },
        };
        proof {
            lemma_debt_monotone(balance as int, self.balance as int, index);
        }
        self.settle(index, balance)
    }
}

/// A transfer of shares between two holders of one property.
#[derive(Clone, Debug, PartialEq, Eq)]
pub struct TransferFractions {
    pub property_account: PropertyAccount,
    /// The record of the holder who gives. The movement of the tokens
    /// themselves has to be authorized by this holder.
    pub source_holder: HolderState,
    /// The record of the holder who receives.
    pub dest_holder: HolderState,
}

/// A sale: the buyer pays the seller a price that the two have agreed on, and
/// the seller's shares go to the buyer.
#[derive(Clone, Debug, PartialEq, Eq)]
pub struct BuyFractions {
    pub property_account: PropertyAccount,
    pub buyer_holder: HolderState,
    pub seller_holder: HolderState,
}

/// A holder retires shares.
#[derive(Clone, Debug, PartialEq, Eq)]
pub struct BurnFractions {
    pub property_account: PropertyAccount,
    pub holder_state: HolderState,
}

/// The authority issues shares to a holder.
#[derive(Clone, Debug, PartialEq, Eq)]
pub struct MintFractions {
    pub property_account: PropertyAccount,
    /// Who asks for the mint.
    pub authority: Address,
    /// The record of the holder who receives the new shares.
    pub destination_holder: HolderState,
}

/// Moves `amount` shares from the source holder to the destination holder.
///
/// Both records are settled at the property's index first. Fails with
/// `InsufficientFunds` where the source holds fewer than `amount` shares and
/// with `NumericOverflow` where a number does not fit; a refused transfer
/// changes nothing. The tokens themselves are moved by the caller, who must
/// drop the new records if that movement fails.
pub fn transfer_fractions(ctx: &mut TransferFractions, amount: u64) -> (r: Result<(), ErrorCode>)
    ensures
        match transfer_outcome(
            old(ctx).source_holder,
            old(ctx).dest_holder,
            old(ctx).property_account.cum_rent_per_share,
            amount,
        ) {
            Ok((source, dest)) => r is Ok && *final(ctx) == (TransferFractions {
                source_holder: source,
                dest_holder: dest,
                ..*old(ctx)
            }),
            Err(e) => r == Err::<(), ErrorCode>(e) && *final(ctx) == *old(ctx),
        },
{
    let index = ctx.property_account.cum_rent_per_share;
    if ctx.source_holder.owed_at(index).is_err() || ctx.dest_holder.owed_at(index).is_err() {
        return Err(ErrorCode::NumericOverflow);
    }
    let mut source = ctx.source_holder;
    let mut dest = ctx.dest_holder;
    match source.debit(index, amount) {
        Ok(()) => {},
        Err(e) => { return Err(e); },
    }
    match dest.credit(index, amount) {
        Ok(()) => {},
        Err(e) => { return Err(e); },
    }
    ctx.source_holder = source;
    ctx.dest_holder = dest;
    Ok(())
}

/// Moves `fraction_amount` shares from the seller to the buyer.
///
/// The records change as in a transfer, except that the seller's record is
/// settled and debited before the buyer's is looked at. The `price` is what
/// the buyer pays the seller; it is the caller's business, is not held
/// against the number of shares, and has no effect on the records.
pub fn buy_fractions(ctx: &mut BuyFractions, fraction_amount: u64, price: u64) -> (r: Result<
    (),
    ErrorCode,
>)
    ensures
        match sale_outcome(
            old(ctx).seller_holder,
            old(ctx).buyer_holder,
            old(ctx).property_account.cum_rent_per_share,
            fraction_amount,
        ) {
            Ok((seller, buyer)) => r is Ok && *final(ctx) == (BuyFractions {
                seller_holder: seller,
                buyer_holder: buyer,
                ..*old(ctx)
            }),
            Err(e) => r == Err::<(), ErrorCode>(e) && *final(ctx) == *old(ctx),
        },
{
    let index = ctx.property_account.cum_rent_per_share;
    let mut seller = ctx.seller_holder;
    let mut buyer = ctx.buyer_holder;
    match seller.debit(index, fraction_amount) {
        Ok(()) => {},
        Err(e) => { return Err(e); },
    }
    match buyer.credit(index, fraction_amount) {
        Ok(()) => {},
        Err(e) => { return Err(e); },
    }
    ctx.seller_holder = seller;
    ctx.buyer_holder = buyer;
    Ok(())
}

/// Retires `amount` of the holder's shares.
///
/// The record is settled first, so what the shares have earned stays owed.
/// Fails with `InsufficientFunds` where the holder has fewer shares.
pub fn burn_fractions(ctx: &mut BurnFractions, amount: u64) -> (r: Result<(), ErrorCode>)
    ensures
        match debit_outcome(
            old(ctx).holder_state,
            old(ctx).property_account.cum_rent_per_share,
            amount,
        ) {
            Ok(holder) => r is Ok && *final(ctx) == (BurnFractions {
                holder_state: holder,
                ..*old(ctx)
            }),
            Err(e) => r == Err::<(), ErrorCode>(e) && *final(ctx) == *old(ctx),
        },
{
    let index = ctx.property_account.cum_rent_per_share;
    let mut holder = ctx.holder_state;
    match holder.debit(index, amount) {
        Ok(()) => {},
        Err(e) => { return Err(e); },
    }
    ctx.holder_state = holder;
    Ok(())
}

/// Issues `amount` new shares to the destination holder.
///
/// Only the property's authority may mint: anybody else is refused with
/// `Unauthorized`. The destination's record is settled and credited like the
/// receiving side of a transfer, so the balances on record always add up to
/// the shares in existence.
pub fn mint_fractions(ctx: &mut MintFractions, amount: u64) -> (r: Result<(), ErrorCode>)
    ensures
        match mint_outcome(
            old(ctx).property_account,
            old(ctx).authority,
            old(ctx).destination_holder,
            amount,
        ) {
            Ok(holder) => r is Ok && *final(ctx) == (MintFractions {
                destination_holder: holder,
                ..*old(ctx)
            }),
            Err(e) => r == Err::<(), ErrorCode>(e) && *final(ctx) == *old(ctx),
        },
{
    if !ctx.authority.same(&ctx.property_account.authority) {
        return Err(ErrorCode::Unauthorized);
    }
    let index = ctx.property_account.cum_rent_per_share;
    let mut holder = ctx.destination_holder;
    match holder.credit(index, amount) {
        Ok(()) => {},
        Err(e) => { return Err(e); },
    }
    ctx.destination_holder = holder;
    Ok(())
}

} // verus!
