//! A ledger of secondary-asset balances.
//!
//! The runtime around this crate keeps the real multi-asset ledger; what the
//! fee logic reads and writes of it is one balance per account in the one
//! supported settlement asset, so that is what this type holds. Withdrawals
//! are the only way to create a `WithdrawnCredit`, and deposits the only way
//! to destroy one: outside explicit issuance, no value appears or vanishes.

use vstd::prelude::*;

use crate::credit::{sat_add, WithdrawnCredit};
use crate::{AccountId, AssetId, Balance, KSM_ASSET_ID};

verus! {

/// The answer of a solvency query: whether an account can give up an amount.
#[derive(Clone, Copy, PartialEq, Eq, Debug)]
pub enum SolvencyStatus {
    /// The account holds at least the queried amount.
    Success,
    /// The account holds less than the queried amount.
    NoFunds,
}

/// Why the ledger refused an operation.
#[derive(Clone, Copy, PartialEq, Eq, Debug)]
pub enum LedgerError {
    /// The asset is not the supported secondary settlement asset.
    UnsupportedAsset,
    /// The account holds less than the requested amount.
    InsufficientBalance,
}

/// A deposit's effect on a balance table: account `who` gains `amount`,
/// saturating at the largest representable balance, when the credit is in the
/// supported asset; a credit of any other asset changes nothing.
pub open spec fn resolve_spec(
    bals: Seq<Balance>,
    who: int,
    asset: AssetId,
    amount: Balance,
) -> Seq<Balance> {
    if asset == KSM_ASSET_ID {
        bals.update(who, sat_add(bals[who], amount))
    } else {
        bals
    }
}

/// Per-account balances in the secondary settlement asset.
pub struct Ledger {
    accounts: Vec<Balance>,
}

impl Ledger {
    /// The balance table: one entry per account.
    pub closed spec fn balances(self) -> Seq<Balance> {
        self.accounts@
    }

    /// A ledger with the given opening balances.
    pub fn new(initial: Vec<Balance>) -> (l: Ledger)
        ensures
            l.balances() == initial@,
    {
        Ledger { accounts: initial }
    }

    /// How many accounts the ledger tracks.
    pub fn account_count(&self) -> (n: usize)
        ensures
            n == self.balances().len(),
    {
        self.accounts.len()
    }

    /// The secondary-asset balance of one account.
    pub fn balance_of(&self, who: AccountId) -> (b: Balance)
        requires
            who < self.balances().len(),
        ensures
            b == self.balances()[who as int],
    {
        self.accounts[who]
    }

    /// Solvency query: reports `Success` exactly when `who` can give up
    /// `amount` of the secondary asset.
    pub fn can_withdraw(&self, who: AccountId, amount: Balance) -> (s: SolvencyStatus)
        requires
            who < self.balances().len(),
        ensures
            s == SolvencyStatus::Success <==> amount <= self.balances()[who as int],
            s == SolvencyStatus::NoFunds <==> amount > self.balances()[who as int],
    {
        if amount <= self.accounts[who] {
            SolvencyStatus::Success
        } else {
            SolvencyStatus::NoFunds
        }
    }

    /// Debits `amount` of `asset` from `who` and hands the debited value back
    /// as a credit. Succeeds exactly for the supported asset and a sufficient
    /// balance; on failure the ledger is unchanged.
    pub fn withdraw(&mut self, asset: AssetId, who: AccountId, amount: Balance) -> (r: Result<
        WithdrawnCredit,
        LedgerError,
    >)
        requires
            who < old(self).balances().len(),
        ensures
            r is Ok <==> (asset == KSM_ASSET_ID && amount <= old(self).balances()[who as int]),
            r matches Ok(c) ==> {
                &&& c.asset() == asset
                &&& c.amount() == amount
                &&& final(self).balances() == old(self).balances().update(
                    who as int,
                    (old(self).balances()[who as int] - amount) as Balance,
                )
            },
            r is Err ==> *final(self) == *old(self),
            asset != KSM_ASSET_ID ==> r == Err::<WithdrawnCredit, LedgerError>(
                LedgerError::UnsupportedAsset,
            ),
            asset == KSM_ASSET_ID && amount > old(self).balances()[who as int] ==> r == Err::<
                WithdrawnCredit,
                LedgerError,
            >(LedgerError::InsufficientBalance),
    {
        if asset != KSM_ASSET_ID {
            return Err(LedgerError::UnsupportedAsset);
        }
        let held: Balance = self.accounts[who];
        if amount > held {
            return Err(LedgerError::InsufficientBalance);
        }
        self.accounts.set(who, held - amount);
        Ok(WithdrawnCredit::issue(asset, amount))
    }

    /// Deposits a credit into `who`'s account, consuming it. A credit in the
    /// supported asset is always accepted, saturating at the largest
    /// representable balance; one in any other asset is refused, and its
    /// value is gone — callers along the fee path swallow that loss by
    /// design.
    pub fn resolve(&mut self, who: AccountId, credit: WithdrawnCredit) -> (r: Result<
        (),
        LedgerError,
    >)
        requires
            who < old(self).balances().len(),
        ensures
            final(self).balances() == resolve_spec(
                old(self).balances(),
                who as int,
                credit.asset(),
                credit.amount(),
            ),
            r is Ok <==> credit.asset() == KSM_ASSET_ID,
            r is Err ==> r == Err::<(), LedgerError>(LedgerError::UnsupportedAsset),
    {
        if credit.asset_id() == KSM_ASSET_ID {
            let held: Balance = self.accounts[who];
            self.accounts.set(who, held.saturating_add(credit.peek()));
            Ok(())
        } else {
            Err(LedgerError::UnsupportedAsset)
        }
    }
}

} // verus!
