//! Fee distributor: routes a finally-retained fee to the treasury and the
//! staking pot.

use vstd::prelude::*;

use crate::credit::{sat_add, split_first, split_second, WithdrawnCredit};
use crate::ledger::{resolve_spec, Ledger};
use crate::{AccountId, AssetId, Balance};

verus! {

/// The product of two balances, capped at the largest representable balance.
pub open spec fn sat_mul(a: Balance, b: Balance) -> Balance {
    if a * b > u128::MAX {
        u128::MAX
    } else {
        (a * b) as Balance
    }
}

/// The staking pot's cut of a distributed amount: half, by floor-divided
/// percentage, computed as `amount * 50 / 100` with a saturating product.
pub open spec fn staking_pot_share(amount: Balance) -> Balance {
    split_first(amount, (sat_mul(amount, 50) / 100) as Balance)
}

/// The treasury's cut of a distributed amount: whatever the staking pot does
/// not take. An odd amount rounds the treasury share up by one unit.
pub open spec fn treasury_share(amount: Balance) -> Balance {
    split_second(amount, (sat_mul(amount, 50) / 100) as Balance)
}

/// A distribution's effect on a balance table: the treasury account receives
/// its share first, then the staking pot receives the rest. Both deposits are
/// best-effort: a credit in an unsupported asset is lost, never an error.
pub open spec fn distribute_spec(
    bals: Seq<Balance>,
    treasury: int,
    staking_pot: int,
    asset: AssetId,
    amount: Balance,
) -> Seq<Balance> {
    resolve_spec(
        resolve_spec(bals, treasury, asset, treasury_share(amount)),
        staking_pot,
        asset,
        staking_pot_share(amount),
    )
}

/// The amount one disposition pools out of a sequence of credits: the first
/// credit, with the second merged in when it holds the same asset. A second
/// credit of another asset, and anything past the second, is dropped.
pub open spec fn pooled_amount(credits: Seq<WithdrawnCredit>) -> Balance {
    if credits.len() >= 2 && credits[1].asset() == credits[0].asset() {
        sat_add(credits[0].amount(), credits[1].amount())
    } else {
        credits[0].amount()
    }
}

/// What disposing of a whole sequence of credits does to a balance table:
/// nothing when the sequence is empty, else one distribution of the pooled
/// amount in the first credit's asset.
pub open spec fn distribute_all_spec(
    bals: Seq<Balance>,
    treasury: int,
    staking_pot: int,
    credits: Seq<WithdrawnCredit>,
) -> Seq<Balance> {
    if credits.len() == 0 {
        bals
    } else {
        distribute_spec(bals, treasury, staking_pot, credits[0].asset(), pooled_amount(credits))
    }
}

/// The product of a balance and a factor, saturating at the largest
/// representable balance.
fn saturating_mul(a: Balance, b: Balance) -> (r: Balance)
    ensures
        r == sat_mul(a, b),
{
    match a.checked_mul(b) {
        Some(v) => v,
        None => u128::MAX,
    }
}

/// Routes retained fee credits to the treasury and staking-pot accounts.
pub struct DealWithKSMFees;

impl DealWithKSMFees {
    /// Disposes of a sequence of credits, fees first, tips after: the first
    /// credit is the fee, a second is a tip pooled into it, and anything
    /// beyond the second is not produced by this crate's call sites and is
    /// dropped. An empty sequence is a no-op.
    pub fn on_unbalanceds(
        ledger: &mut Ledger,
        fees_then_tips: Vec<WithdrawnCredit>,
        treasury: AccountId,
        staking_pot: AccountId,
    )
        requires
            treasury < old(ledger).balances().len(),
            staking_pot < old(ledger).balances().len(),
        ensures
            final(ledger).balances() == distribute_all_spec(
                old(ledger).balances(),
                treasury as int,
                staking_pot as int,
                fees_then_tips@,
            ),
    {
        let mut credits = fees_then_tips;
        if credits.len() == 0 {
            return ;
        }
        let mut fees = credits.remove(0);
        if credits.len() > 0 {
            let tips = credits.remove(0);
            let _ = fees.subsume(tips);
        }
        Self::on_unbalanced(ledger, fees, treasury, staking_pot);
    }

    /// Distributes one credit: the staking pot is owed `amount * 50 / 100`
    /// (floor), the treasury the remainder, so an odd amount favours the
    /// treasury by one unit. The treasury is credited first, then the staking
    /// pot; deposit failures are swallowed.
    pub fn on_unbalanced(
        ledger: &mut Ledger,
        amount: WithdrawnCredit,
        treasury: AccountId,
        staking_pot: AccountId,
    )
        requires
            treasury < old(ledger).balances().len(),
            staking_pot < old(ledger).balances().len(),
        ensures
            final(ledger).balances() == distribute_spec(
                old(ledger).balances(),
                treasury as int,
                staking_pot as int,
                amount.asset(),
                amount.amount(),
            ),
    {
        let pot_cut: Balance = saturating_mul(amount.peek(), 50) / 100;
        let (to_collators, to_treasury) = amount.split(pot_cut);
        let _ = ledger.resolve(treasury, to_treasury);
        let _ = ledger.resolve(staking_pot, to_collators);
    }
}

/// The two distribution shares always sum to the distributed amount, and as
/// long as fifty times the amount is representable, the staking pot's share
/// is exactly `amount * 50 / 100`, floor-divided.
pub proof fn lemma_distribution_shares(amount: Balance)
    ensures
        staking_pot_share(amount) + treasury_share(amount) == amount,
        50 * amount <= u128::MAX ==> staking_pot_share(amount) == (50 * amount) / 100,
{
    assert(50 * amount / 100 <= amount) by (nonlinear_arith);
}

} // verus!
