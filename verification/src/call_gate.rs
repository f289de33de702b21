//! Call gate: decides whether a transaction's call may pay its fee in the
//! secondary asset.

use vstd::prelude::*;

verus! {

/// A transaction's call, by the module it addresses. Eligibility depends on
/// the variant alone, never on a call's arguments.
#[derive(Clone, Copy, PartialEq, Eq, Debug)]
pub enum RuntimeCall {
    /// The governance/ownership module.
    Inv4,
    /// The cross-chain-asset module.
    Rings,
    /// The token-transfer module.
    Tokens,
    /// The cross-chain-transfer module.
    XTokens,
    /// The native-balance module; not on the allow-list.
    Balances,
    /// The system module; not on the allow-list.
    System,
    /// Any other module; not on the allow-list.
    Other,
}

/// A call may pay its fee in the secondary asset exactly when it addresses
/// one of the four allow-listed modules.
pub open spec fn is_eligible_call(c: RuntimeCall) -> bool {
    c is Inv4 || c is Rings || c is Tokens || c is XTokens
}

/// The fixed allow-list of call categories that may settle fees in the
/// secondary asset.
pub struct KSMEnabledPallets;

impl KSMEnabledPallets {
    /// Pure classification of a call: `true` exactly for the allow-listed
    /// variants. No side effects and no failure mode.
    pub fn contains(t: &RuntimeCall) -> (r: bool)
        ensures
            r == is_eligible_call(*t),
    {
        matches!(
            t,
            RuntimeCall::Inv4
                | RuntimeCall::Rings
                | RuntimeCall::Tokens
                | RuntimeCall::XTokens
        )
    }
}

} // verus!
