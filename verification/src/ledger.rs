//! The share ledger of one property as a whole: the records of all its
//! holders beside the number of shares in existence, and the proof that the
//! two always agree.
//!
//! The shares themselves live with the token service, which mints, moves and
//! burns them in the same indivisible step in which a record changes here. So
//! the outstanding supply rises by what a mint credits, falls by what a burn
//! debits, and is left alone by a transfer or a sale.

use vstd::prelude::*;
use crate::claim::claim_outcome;
use crate::settlement::{credit_outcome, debit_outcome, sale_outcome, transfer_outcome};
use crate::state::HolderState;

verus! {

/// The records of a property's holders, and the outstanding supply of its
/// share token.
pub ghost struct Ledger {
    pub holders: Seq<HolderState>,
    pub supply: int,
}

/// One operation on the records of the holders. Holders are named by their
/// place in the ledger.
pub ghost enum Movement {
    Mint { to: int, amount: u64 },
    Transfer { from: int, to: int, amount: u64 },
    Sale { seller: int, buyer: int, amount: u64 },
    Burn { from: int, amount: u64 },
    Claim { who: int },
}

/// The sum of the balances on record.
pub open spec fn total_balance(holders: Seq<HolderState>) -> int
    decreases holders.len(),
{
    if holders.len() == 0 {
        0
    } else {
        total_balance(holders.drop_last()) + holders.last().balance as int
    }
}

impl Ledger {
    /// Whether the balances on record add up to the outstanding supply.
    pub open spec fn conserved(self) -> bool {
        total_balance(self.holders) == self.supply
    }

    /// Whether `i` names a holder of this ledger.
    pub open spec fn has(self, i: int) -> bool {
        0 <= i < self.holders.len()
    }

    /// The ledger after one operation at the given index. A refused
    /// operation, and one that names a holder who is not there or the same
    /// holder twice, leaves the ledger as it is.
    pub open spec fn step(self, index: u128, movement: Movement) -> Ledger {
        match movement {
            Movement::Mint { to, amount } => {
                if self.has(to) {
                    match credit_outcome(self.holders[to], index, amount) {
                        Ok(holder) => Ledger {
                            holders: self.holders.update(to, holder),
                            supply: self.supply + amount as int,
                        },
                        Err(_) => self,
                    }
                } else {
                    self
                }
            },
            Movement::Transfer { from, to, amount } => {
                if self.has(from) && self.has(to) && from != to {
                    match transfer_outcome(self.holders[from], self.holders[to], index, amount) {
                        Ok((source, dest)) => Ledger {
                            holders: self.holders.update(from, source).update(to, dest),
                            ..self
                        },
                        Err(_) => self,
                    }
                } else {
                    self
                }
            },
            Movement::Sale { seller, buyer, amount } => {
                if self.has(seller) && self.has(buyer) && seller != buyer {
                    match sale_outcome(self.holders[seller], self.holders[buyer], index, amount) {
                        Ok((sold, bought)) => Ledger {
                            holders: self.holders.update(seller, sold).update(buyer, bought),
                            ..self
                        },
                        Err(_) => self,
                    }
                } else {
                    self
                }
            },
            Movement::Burn { from, amount } => {
                if self.has(from) {
                    match debit_outcome(self.holders[from], index, amount) {
                        Ok(holder) => Ledger {
                            holders: self.holders.update(from, holder),
                            supply: self.supply - amount as int,
                        },
                        Err(_) => self,
                    }
                } else {
                    self
                }
            },
            Movement::Claim { who } => {
                if self.has(who) && claim_outcome(self.holders[who], index) is Ok {
                    Ledger {
                        holders: self.holders.update(who, self.holders[who].claimed(index)),
                        ..self
                    }
                } else {
                    self
                }
            },
        }
    }

    /// The ledger after a run of operations, each at the index that the
    /// property had when it was made.
    pub open spec fn run(self, steps: Seq<(u128, Movement)>) -> Ledger
        decreases steps.len(),
    {
        if steps.len() == 0 {
            self
        } else {
            self.run(steps.drop_last()).step(steps.last().0, steps.last().1)
        }
    }
}

/// Replacing one record changes the sum of the balances by the difference
/// between the new balance and the old.
pub proof fn lemma_total_balance_update(holders: Seq<HolderState>, i: int, holder: HolderState)
    requires
        0 <= i < holders.len(),
    ensures
        total_balance(holders.update(i, holder)) == total_balance(holders)
            - holders[i].balance as int + holder.balance as int,
    decreases holders.len(),
{
    let updated = holders.update(i, holder);
    if i == holders.len() - 1 {
        assert(updated.drop_last() =~= holders.drop_last());
    } else {
        assert(updated.drop_last() =~= holders.drop_last().update(i, holder));
        lemma_total_balance_update(holders.drop_last(), i, holder);
    }
}

/// One operation keeps the balances on record equal to the outstanding
/// supply.
pub proof fn lemma_step_conserves(ledger: Ledger, index: u128, movement: Movement)
    requires
        ledger.conserved(),
    ensures
        ledger.step(index, movement).conserved(),
{
    let h = ledger.holders;
    match movement {
        Movement::Mint { to, amount } => {
            if ledger.has(to) {
                if let Ok(holder) = credit_outcome(h[to], index, amount) {
                    lemma_total_balance_update(h, to, holder);
                }
            }
        },
        Movement::Transfer { from, to, amount } => {
            if ledger.has(from) && ledger.has(to) && from != to {
                if let Ok((source, dest)) = transfer_outcome(h[from], h[to], index, amount) {
                    lemma_total_balance_update(h, from, source);
                    lemma_total_balance_update(h.update(from, source), to, dest);
                }
            }
        },
        Movement::Sale { seller, buyer, amount } => {
            if ledger.has(seller) && ledger.has(buyer) && seller != buyer {
                if let Ok((sold, bought)) = sale_outcome(h[seller], h[buyer], index, amount) {
                    lemma_total_balance_update(h, seller, sold);
                    lemma_total_balance_update(h.update(seller, sold), buyer, bought);
                }
            }
        },
        Movement::Burn { from, amount } => {
            if ledger.has(from) {
                if let Ok(holder) = debit_outcome(h[from], index, amount) {
                    lemma_total_balance_update(h, from, holder);
                }
            }
        },
        Movement::Claim { who } => {
            if ledger.has(who) {
                lemma_total_balance_update(h, who, h[who].claimed(index));
            }
        },
    }
}

/// Claims do not get in each other's way: a claim changes the claimant's
/// record and nothing else, so what a holder is paid, and what the ledger
/// looks like after two holders have claimed, is the same whichever of the
/// two claims first.
pub proof fn lemma_claims_commute(ledger: Ledger, index: u128, a: int, b: int)
    requires
        ledger.has(a),
        ledger.has(b),
        a != b,
    ensures
        ledger.step(index, Movement::Claim { who: a }).holders[b] == ledger.holders[b],
        claim_outcome(ledger.step(index, Movement::Claim { who: a }).holders[b], index)
            == claim_outcome(ledger.holders[b], index),
        ledger.step(index, Movement::Claim { who: a }).step(index, Movement::Claim { who: b })
            == ledger.step(index, Movement::Claim { who: b }).step(
            index,
            Movement::Claim { who: a },
        ),
{
    let first_a = ledger.step(index, Movement::Claim { who: a }).step(
        index,
        Movement::Claim { who: b },
    );
    let first_b = ledger.step(index, Movement::Claim { who: b }).step(
        index,
        Movement::Claim { who: a },
    );
    assert(first_a.holders =~= first_b.holders);
}

/// Conservation: whatever mints, transfers, sales, burns and claims are
/// made, in whatever order and at whatever indices, accepted or refused, the
/// balances on record keep adding up to the outstanding supply of the share
/// token.
pub proof fn lemma_run_conserves(ledger: Ledger, steps: Seq<(u128, Movement)>)
    requires
        ledger.conserved(),
    ensures
        ledger.run(steps).conserved(),
    decreases steps.len(),
{
    if steps.len() > 0 {
        lemma_run_conserves(ledger, steps.drop_last());
        lemma_step_conserves(ledger.run(steps.drop_last()), steps.last().0, steps.last().1);
    }
}

} // verus!
