//! Transaction charger: withdraws the fee before dispatch and reconciles it
//! afterwards.

use vstd::prelude::*;

use crate::call_gate::{is_eligible_call, KSMEnabledPallets, RuntimeCall};
use crate::credit::{split_first, split_second, WithdrawnCredit};
use crate::distributor::{distribute_spec, DealWithKSMFees};
use crate::ledger::{resolve_spec, Ledger, SolvencyStatus};
use crate::rate::{converted_fee, TnkrToKsm};
use crate::{AccountId, AssetId, Balance, KSM_ASSET_ID, RATE};

verus! {

/// Why a transaction was refused before dispatch.
#[derive(Clone, Copy, PartialEq, Eq, Debug)]
pub enum ChargeError {
    /// The transaction is not valid for secondary-asset fee payment: the call
    /// is not allow-listed, the asset is not supported, or the payer cannot
    /// afford the fee.
    Rejected,
}

/// The minimum converted fee: zero for a genuinely free transaction, one
/// secondary unit otherwise, so that a nonzero native fee never rounds down
/// to an uncharged transaction.
pub open spec fn min_converted_fee(fee: Balance) -> Balance {
    if fee == 0 {
        0
    } else {
        1
    }
}

/// What a native fee costs in the secondary asset once the minimum-fee floor
/// is applied: the converted amount, floored up to `min_converted_fee(fee)`.
pub open spec fn charged_fee(fee: Balance) -> Balance {
    if converted_fee(fee) < min_converted_fee(fee) {
        min_converted_fee(fee)
    } else {
        converted_fee(fee)
    }
}

/// When a withdrawal goes through: the call is allow-listed, the fee asset is
/// the supported one, and the payer's balance covers the charged fee.
pub open spec fn withdraw_accepted(
    call: RuntimeCall,
    asset_id: AssetId,
    fee: Balance,
    payer_balance: Balance,
) -> bool {
    &&& is_eligible_call(call)
    &&& asset_id == KSM_ASSET_ID
    &&& charged_fee(fee) <= payer_balance
}

/// What reconciliation does to a balance table once the held credit's asset
/// checks out: the refund — whatever was withdrawn beyond the corrected
/// charge — goes back to the payer, and the rest is distributed between the
/// treasury and the staking pot.
pub open spec fn corrected_deposit(
    bals: Seq<Balance>,
    who: int,
    treasury: int,
    staking_pot: int,
    corrected_fee: Balance,
    paid_amount: Balance,
) -> Seq<Balance> {
    distribute_spec(
        resolve_spec(
            bals,
            who,
            KSM_ASSET_ID,
            split_second(paid_amount, charged_fee(corrected_fee)),
        ),
        treasury,
        staking_pot,
        KSM_ASSET_ID,
        split_first(paid_amount, charged_fee(corrected_fee)),
    )
}

/// Charges transaction fees in the secondary asset, but only for allow-listed
/// calls.
pub struct FilteredTransactionCharger;

impl FilteredTransactionCharger {
    /// Withdraw phase, run before dispatch. Refuses the transaction unless
    /// the call is allow-listed and `asset_id` is the supported asset;
    /// converts `fee`, floors it up to the minimum, and withdraws exactly
    /// that from the payer, handing the debited value back as a credit. The
    /// tip is fee-equivalent here and not separately validated. On any
    /// refusal the ledger is untouched.
    pub fn withdraw_fee(
        ledger: &mut Ledger,
        who: AccountId,
        call: &RuntimeCall,
        asset_id: AssetId,
        fee: Balance,
        _tip: Balance,
    ) -> (r: Result<WithdrawnCredit, ChargeError>)
        requires
            who < old(ledger).balances().len(),
        ensures
            r is Ok <==> withdraw_accepted(*call, asset_id, fee, old(ledger).balances()[who as int]),
            r matches Ok(c) ==> {
                &&& c.asset() == KSM_ASSET_ID
                &&& c.amount() == charged_fee(fee)
                &&& final(ledger).balances() == old(ledger).balances().update(
                    who as int,
                    (old(ledger).balances()[who as int] - charged_fee(fee)) as Balance,
                )
            },
            r is Err ==> *final(ledger) == *old(ledger) && r == Err::<WithdrawnCredit, ChargeError>(
                ChargeError::Rejected,
            ),
    {
        if KSMEnabledPallets::contains(call) && asset_id == KSM_ASSET_ID {
            let min_fee: Balance = if fee == 0 {
                0
            } else {
                1
            };
            let converted = match TnkrToKsm::to_asset_balance(fee, asset_id) {
                Ok(c) => c,
                Err(_) => {
                    return Err(ChargeError::Rejected);
                },
            };
            let to_charge: Balance = if converted < min_fee {
                min_fee
            } else {
                converted
            };
            let can = ledger.can_withdraw(who, to_charge);
            if !matches!(can, SolvencyStatus::Success) {
                return Err(ChargeError::Rejected);
            }
            match ledger.withdraw(asset_id, who, to_charge) {
                Ok(credit) => Ok(credit),
                Err(_) => Err(ChargeError::Rejected),
            }
        } else {
            Err(ChargeError::Rejected)
        }
    }

    /// Correction phase, run after dispatch. Converts the corrected native
    /// fee with the same minimum-fee floor, splits the held credit into the
    /// final fee and the payer's refund, deposits the refund, and hands the
    /// final fee to the distributor. Succeeds exactly when the held credit is
    /// in the supported asset; deposit and distribution failures past that
    /// point are swallowed, never propagated, because the dispatched
    /// transaction can no longer be unwound.
    pub fn correct_and_deposit_fee(
        ledger: &mut Ledger,
        who: AccountId,
        corrected_fee: Balance,
        _tip: Balance,
        paid: WithdrawnCredit,
        treasury: AccountId,
        staking_pot: AccountId,
    ) -> (r: Result<(), ChargeError>)
        requires
            who < old(ledger).balances().len(),
            treasury < old(ledger).balances().len(),
            staking_pot < old(ledger).balances().len(),
        ensures
            r is Ok <==> paid.asset() == KSM_ASSET_ID,
            r is Ok ==> final(ledger).balances() == corrected_deposit(
                old(ledger).balances(),
                who as int,
                treasury as int,
                staking_pot as int,
                corrected_fee,
                paid.amount(),
            ),
            r is Err ==> *final(ledger) == *old(ledger) && r == Err::<(), ChargeError>(
                ChargeError::Rejected,
            ),
    {
        let min_fee: Balance = if corrected_fee == 0 {
            0
        } else {
            1
        };
        let converted = match TnkrToKsm::to_asset_balance(corrected_fee, paid.asset_id()) {
            Ok(c) => c,
            Err(_) => {
                return Err(ChargeError::Rejected);
            },
        };
        let corrected: Balance = if converted < min_fee {
            min_fee
        } else {
            converted
        };
        let (final_fee, refund) = paid.split(corrected);
        let _ = ledger.resolve(who, refund);
        DealWithKSMFees::on_unbalanced(ledger, final_fee, treasury, staking_pot);
        Ok(())
    }
}

/// An ineligible call is always rejected, whatever the asset, the fee, or the
/// payer's balance.
pub proof fn lemma_ineligible_call_rejected(
    call: RuntimeCall,
    asset_id: AssetId,
    fee: Balance,
    payer_balance: Balance,
)
    requires
        !is_eligible_call(call),
    ensures
        !withdraw_accepted(call, asset_id, fee, payer_balance),
{
}

/// For a nonzero native fee the charged secondary amount is the converted
/// amount or one unit, whichever is greater; a zero native fee charges
/// nothing.
pub proof fn lemma_charged_fee_floor(fee: Balance)
    ensures
        fee > 0 ==> charged_fee(fee) == if fee / RATE >= 1 {
            (fee / RATE) as Balance
        } else {
            1
        },
        fee == 0 ==> charged_fee(fee) == 0,
{
}

} // verus!
