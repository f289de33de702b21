//! Withdrawn credit: funds debited from a payer but not yet deposited
//! anywhere.
//!
//! A credit is a value object and a linear resource: it is created only by a
//! successful withdrawal from the ledger, and it is meant to be consumed
//! exactly once, by being merged into another credit, split into parts, or
//! deposited back into an account.

use vstd::prelude::*;

use crate::{AssetId, Balance};

verus! {

/// The sum of two balances, capped at the largest representable balance.
pub open spec fn sat_add(a: Balance, b: Balance) -> Balance {
    if a + b > u128::MAX {
        u128::MAX
    } else {
        (a + b) as Balance
    }
}

/// The part of a credit of `total` units that a split for `want` units
/// retains: `want` itself when the credit covers it, else the whole credit.
pub open spec fn split_first(total: Balance, want: Balance) -> Balance {
    if want < total {
        want
    } else {
        total
    }
}

/// The remainder a split for `want` units leaves of a credit of `total`
/// units; never negative.
pub open spec fn split_second(total: Balance, want: Balance) -> Balance {
    (total - split_first(total, want)) as Balance
}

/// Funds of one asset withdrawn from a payer and owed to someone. A credit
/// can be moved, split, merged, or deposited, but never copied.
#[derive(PartialEq, Eq, Debug)]
pub struct WithdrawnCredit {
    asset: AssetId,
    amount: Balance,
}

impl WithdrawnCredit {
    /// The asset the funds were withdrawn in.
    pub closed spec fn asset(self) -> AssetId {
        self.asset
    }

    /// How many units of the asset the credit holds.
    pub closed spec fn amount(self) -> Balance {
        self.amount
    }

    /// Creates a credit out of nothing. The ledger uses this when a
    /// withdrawal succeeds; a test may use it to stage a disposition
    /// scenario directly.
    pub fn issue(asset: AssetId, amount: Balance) -> (c: Self)
        ensures
            c.asset() == asset,
            c.amount() == amount,
    {
        WithdrawnCredit { asset, amount }
    }

    /// Reads the credit's amount without consuming it.
    pub fn peek(&self) -> (a: Balance)
        ensures
            a == self.amount(),
    {
        self.amount
    }

    /// Reads the asset the credit was withdrawn in.
    pub fn asset_id(&self) -> (a: AssetId)
        ensures
            a == self.asset(),
    {
        self.asset
    }

    /// Splits the credit into a part of at most `want` units and the
    /// remainder. The first part takes `want` units when the credit covers
    /// them and the whole credit otherwise; the two parts always sum back to
    /// the original value.
    pub fn split(self, want: Balance) -> (r: (Self, Self))
        ensures
            r.0.asset() == self.asset(),
            r.1.asset() == self.asset(),
            r.0.amount() == split_first(self.amount(), want),
            r.1.amount() == split_second(self.amount(), want),
            r.0.amount() + r.1.amount() == self.amount(),
    {
        let first: Balance = if want < self.amount {
            want
        } else {
            self.amount
        };
        let second: Balance = self.amount - first;
        (
            WithdrawnCredit { asset: self.asset, amount: first },
            WithdrawnCredit { asset: self.asset, amount: second },
        )
    }

    /// Merges `other` into this credit when both hold the same asset; the
    /// merged amount saturates at the largest representable balance. A credit
    /// of a different asset is handed back unchanged for the caller to
    /// dispose of.
    pub fn subsume(&mut self, other: Self) -> (r: Result<(), Self>)
        ensures
            old(self).asset() == other.asset() ==> {
                &&& r is Ok
                &&& final(self).asset() == old(self).asset()
                &&& final(self).amount() == sat_add(old(self).amount(), other.amount())
            },
            old(self).asset() != other.asset() ==> {
                &&& r == Err::<(), Self>(other)
                &&& *final(self) == *old(self)
            },
    {
        if self.asset == other.asset {
            self.amount = self.amount.saturating_add(other.amount);
            Ok(())
        } else {
            Err(other)
        }
    }
}

/// Splitting a credit and then merging the parts back together preserves its
/// value exactly: the parts sum to the whole, and re-merging them saturates
/// nowhere.
pub proof fn lemma_split_subsume_preserves_value(total: Balance, want: Balance)
    ensures
        split_first(total, want) + split_second(total, want) == total,
        sat_add(split_first(total, want), split_second(total, want)) == total,
{
}

} // verus!
