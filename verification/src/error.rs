use vstd::prelude::*;

verus! {

use crate::epoch;

/// Errors surfaced by the pool core. Host-level failures (storage, queries,
/// reply parsing) stay with the runtime shim and are not modelled here;
/// `Generic` stands for the host's catch-all error with a message.
#[derive(Debug, Clone, PartialEq, Eq)]
pub enum ContractError {
    Generic { msg: String },
    Epoch(epoch::Error),
    ShareAlreadySet,
    SynthAlreadySet,
    PriceUnavailableOrOutdated,
    MintingPaused,
    RedemptionPaused,
    SlippageReached,
    MintInvalidCollateralAmount,
    RedeemInvalidSynthInput { want: String, send: String },
    RedeemNoCw20Sent,
    RedeemEmptyAmount,
    CollectTooEarly,
    CollateralRatioRefreshCooldown,
    /// Carries the earliest time (in seconds) at which the update is allowed.
    TwapPeriodNotElapsed { time: u64 },
}

} // verus!
