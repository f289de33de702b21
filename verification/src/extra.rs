//! The per-transaction extra that a signer attaches to choose a fee asset.

use vstd::prelude::*;

use crate::{AssetId, Balance};

verus! {

/// What a signed transaction carries for fee payment: an optional tip and,
/// when the fee is to be settled in a secondary asset, that asset's
/// identifier. `None` means the fee is paid in the native unit.
#[derive(Clone, PartialEq, Eq, Debug)]
pub struct ChargerExtra {
    /// An extra amount the payer volunteers on top of the fee.
    pub tip: Balance,
    /// The asset to settle the fee in; `None` for the native unit.
    pub asset_id: Option<AssetId>,
}

} // verus!
