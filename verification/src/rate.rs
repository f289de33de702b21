//! Rate converter: maps a native-unit amount to the equivalent amount of the
//! secondary settlement asset.

use vstd::prelude::*;

use crate::{AssetId, Balance, KSM_ASSET_ID, RATE};

verus! {

/// Why a conversion was refused.
#[derive(Clone, Copy, PartialEq, Eq, Debug)]
pub enum ConversionError {
    /// The asset is not the supported secondary settlement asset.
    UnsupportedAsset,
}

/// A native amount converted to secondary units: floor division by `RATE`.
/// Very small native fees convert to zero; callers that must not charge
/// nothing for a nonzero fee apply the minimum-fee floor on top of this.
pub open spec fn converted_fee(fee: Balance) -> Balance {
    (fee / RATE) as Balance
}

/// Converts native-unit amounts to the secondary asset at the fixed rate.
pub struct TnkrToKsm;

impl TnkrToKsm {
    /// Converts `balance` native units into the secondary asset: floor
    /// division by `RATE` for the supported asset, an error for every other
    /// asset.
    pub fn to_asset_balance(balance: Balance, asset_id: AssetId) -> (r: Result<
        Balance,
        ConversionError,
    >)
        ensures
            asset_id == KSM_ASSET_ID ==> r == Ok::<Balance, ConversionError>(
                converted_fee(balance),
            ),
            asset_id != KSM_ASSET_ID ==> r == Err::<Balance, ConversionError>(
                ConversionError::UnsupportedAsset,
            ),
    {
        if asset_id == KSM_ASSET_ID {
            Ok(balance / RATE)
        } else {
            Err(ConversionError::UnsupportedAsset)
        }
    }
}

} // verus!
