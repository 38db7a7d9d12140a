//! The claim engine: what a holder is paid, and what the record looks like
//! afterwards.

use vstd::prelude::*;
use crate::accrual::{after_deposits, lemma_index_never_decreases};
use crate::errors::ErrorCode;
use crate::state::{HolderState, PropertyAccount, SCALE};

verus! {

/// What a claim at `index` pays the holder, in whole payable units, or why it
/// is refused.
pub open spec fn claim_outcome(holder: HolderState, index: u128) -> Result<u64, ErrorCode> {
    if !holder.settles(index) || holder.payout(index) > u64::MAX {
        Err(ErrorCode::NumericOverflow)
    } else {
        Ok(holder.payout(index) as u64)
    }
}

/// Round trip: a claim that follows a claim, with no deposit and no change
/// of balance in between, succeeds, pays exactly nothing and leaves the
/// record as the first claim left it.
pub proof fn lemma_second_claim_pays_nothing(holder: HolderState, index: u128)
    requires
        claim_outcome(holder, index) is Ok,
    ensures
        claim_outcome(holder.claimed(index), index) == Ok::<u64, ErrorCode>(0),
        holder.claimed(index).claimed(index) == holder.claimed(index),
{
    assert(holder.accrued(index) >= 0) by (nonlinear_arith)
        requires
            holder.accrued(index) == holder.balance as int * index as int,
    ;
}

/// Fairness, in scaled units: two holders who were up to date at `start`
/// with nothing unclaimed, and whose balances stayed as they were while
/// deposits raised the index to `end`, are owed exactly in the ratio of
/// their balances.
pub proof fn lemma_owed_in_proportion(a: HolderState, b: HolderState, start: u128, end: u128)
    requires
        start <= end,
        a.up_to_date(start),
        b.up_to_date(start),
        a.unclaimed == 0,
        b.unclaimed == 0,
    ensures
        a.owed(end) == a.balance as int * (end - start),
        b.owed(end) == b.balance as int * (end - start),
        a.owed(end) * b.balance as int == b.owed(end) * a.balance as int,
{
    let d = end - start;
    let x = a.balance as int;
    let y = b.balance as int;
    assert(x * end - x * start == x * d && x * d >= 0) by (nonlinear_arith)
        requires
            d == end - start,
            d >= 0,
            x >= 0,
    ;
    assert(y * end - y * start == y * d && y * d >= 0) by (nonlinear_arith)
        requires
            d == end - start,
            d >= 0,
            y >= 0,
    ;
    assert((x * d) * y == (y * d) * x) by (nonlinear_arith);
}

/// Fairness, in payable units. A claim pays whole units, so each of the two
/// payouts is short of the holder's exact share by less than one unit. What
/// the payouts differ from the ratio of the balances by is exactly what the
/// two roundings differ by: the payouts are in the ratio of the balances if
/// and only if the dropped fractions are, as they are where nothing is
/// dropped.
pub proof fn lemma_payouts_in_proportion(a: HolderState, b: HolderState, start: u128, end: u128)
    requires
        start <= end,
        a.up_to_date(start),
        b.up_to_date(start),
        a.unclaimed == 0,
        b.unclaimed == 0,
    ensures
        ({
            let scale = SCALE as int;
            let x = a.balance as int;
            let y = b.balance as int;
            let dropped_a = a.owed(end) % scale;
            let dropped_b = b.owed(end) % scale;
            &&& a.owed(end) == a.payout(end) * scale + dropped_a
            &&& b.owed(end) == b.payout(end) * scale + dropped_b
            &&& 0 <= dropped_a < scale
            &&& 0 <= dropped_b < scale
            &&& (a.payout(end) * y - b.payout(end) * x) * scale == dropped_b * x - dropped_a * y
            &&& a.payout(end) * y == b.payout(end) * x <==> dropped_a * y == dropped_b * x
            &&& dropped_a == 0 && dropped_b == 0 ==> a.payout(end) * y == b.payout(end) * x
        }),
{
    lemma_owed_in_proportion(a, b, start, end);
    let s = SCALE as int;
    let oa = a.owed(end);
    let ob = b.owed(end);
    let pa = a.payout(end);
    let pb = b.payout(end);
    let x = a.balance as int;
    let y = b.balance as int;
    let ra = oa % s;
    let rb = ob % s;
    assert(oa == pa * s + ra && ob == pb * s + rb && 0 <= ra < s && 0 <= rb < s)
        by (nonlinear_arith)
        requires
            s == 1_000_000_000,
            pa == oa / s,
            pb == ob / s,
            ra == oa % s,
            rb == ob % s,
    ;
    assert((pa * y - pb * x) * s == rb * x - ra * y) by (nonlinear_arith)
        requires
            (pa * s + ra) * y == (pb * s + rb) * x,
    ;
    assert((pa * y == pb * x) <==> ((pa * y - pb * x) * s == 0)) by (nonlinear_arith)
        requires
            s == 1_000_000_000,
    ;
}

/// Fairness between two deposits: two holders who are up to date with
/// nothing unclaimed, and whose balances do not change while the deposits
/// `first` and then `second` are made, are afterwards owed exactly in the
/// ratio of their balances, and their payouts are in that ratio wherever no
/// fraction of a unit is dropped.
pub proof fn lemma_fair_over_two_deposits(
    a: HolderState,
    b: HolderState,
    property: PropertyAccount,
    first: u64,
    second: u64,
)
    requires
        a.up_to_date(property.cum_rent_per_share),
        b.up_to_date(property.cum_rent_per_share),
        a.unclaimed == 0,
        b.unclaimed == 0,
    ensures
        ({
            let end = after_deposits(property, seq![first, second]).cum_rent_per_share;
            &&& a.owed(end) * b.balance as int == b.owed(end) * a.balance as int
            &&& a.owed(end) % (SCALE as int) == 0 && b.owed(end) % (SCALE as int) == 0
                ==> a.payout(end) * b.balance as int == b.payout(end) * a.balance as int
        }),
{
    let end = after_deposits(property, seq![first, second]).cum_rent_per_share;
    lemma_index_never_decreases(property, seq![first, second]);
    lemma_owed_in_proportion(a, b, property.cum_rent_per_share, end);
    lemma_payouts_in_proportion(a, b, property.cum_rent_per_share, end);
}

/// A holder's claim of the rent owed on one property.
#[derive(Clone, Debug, PartialEq, Eq)]
pub struct ClaimRent {
    pub property_account: PropertyAccount,
    pub holder_state: HolderState,
}

/// Pays the holder out: returns the number of whole payable units that the
/// holder is owed, and brings the record up to date.
///
/// What is owed is the unclaimed yield plus what the balance has earned
/// since the last settlement, divided by [`SCALE`] and rounded down. The
/// fraction of a unit that the division leaves is dropped, not carried
/// over: after a claim nothing is unclaimed. A payout of zero is no error;
/// the record is brought up to date all the same. Fails with
/// `NumericOverflow`, and changes nothing, where a number does not fit or
/// the payout does not fit in 64 bits. Where the payout is positive the
/// caller moves it out of the yield custody, and must drop the new record if
/// that movement fails.
pub fn claim_rent(ctx: &mut ClaimRent) -> (r: Result<u64, ErrorCode>)
    ensures
        r == claim_outcome(old(ctx).holder_state, old(ctx).property_account.cum_rent_per_share),
        r is Ok ==> *final(ctx) == (ClaimRent {
            holder_state: old(ctx).holder_state.claimed(
                old(ctx).property_account.cum_rent_per_share,
            ),
            ..*old(ctx)
        }),
        r is Err ==> *final(ctx) == *old(ctx),
{
    let index = ctx.property_account.cum_rent_per_share;
    let owed = match ctx.holder_state.owed_at(index) {
        Ok(owed) => owed,
        Err(e) => { return Err(e); },
    };
    let units: u128 = owed / SCALE;
    if units > u64::MAX as u128 {
        return Err(ErrorCode::NumericOverflow);
    }
    let payout = units as u64;
    let debt = (ctx.holder_state.balance as u128) * index;
    ctx.holder_state.unclaimed = 0;
    ctx.holder_state.reward_debt = debt;
    Ok(payout)
}

} // verus!
