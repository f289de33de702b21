//! Transaction-fee accounting in a secondary settlement asset.
//!
//! Fees are quoted in a native unit; eligible calls may pay them in one
//! supported secondary asset instead. The crate classifies calls, converts
//! native amounts at a fixed rate, withdraws the converted fee from the payer
//! before dispatch, reconciles the actual cost afterwards, and splits what is
//! kept between a treasury account and a staking-pot account.

use vstd::prelude::*;

pub mod call_gate;
pub mod charger;
pub mod credit;
pub mod distributor;
pub mod extra;
pub mod ledger;
pub mod rate;

verus! {

/// A fee-payment balance: an unsigned fixed-precision integer. All arithmetic
/// on balances saturates instead of wrapping or panicking.
pub type Balance = u128;

/// Identifier of a fee-payment asset. One reserved value, `KSM_ASSET_ID`,
/// denotes the supported secondary settlement asset.
pub type AssetId = u32;

/// An account on the secondary-asset ledger, identified by its position in
/// the ledger's balance table.
pub type AccountId = usize;

/// The one asset identifier in which fees may be settled.
pub const KSM_ASSET_ID: AssetId = 1;

/// How many native units equal one secondary unit.
pub const RATE: Balance = 20;

} // verus!
