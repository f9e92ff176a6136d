use vstd::prelude::*;

verus! {

/// Why an operation on orders or on the node registry was turned down.
#[derive(Clone, Copy, Debug, PartialEq, Eq, Structural)]
pub enum ContractError {
    InvalidAmount,
    ZeroAddress,
    InvalidSenderFeeRecipient,
    InvalidMessageHash,
    InvalidSettlePercent,
    OrderAlreadyExists,
    OrderNotFound,
    OrderFulfilled,
    OrderRefunded,
    FeeExceedsProtocolFee,
    Paused,
    Unauthorized,
    TransferFailed,
    AddressAlreadySet,
    InvalidParameter,
    InvalidLpNodeParameters,
    LpNodeIdAlreadyExists,
    SettingsContractNotSet,
    UsdcNotSet,
    NoPendingSettlement,
    NoPendingRefund,
}

} // verus!
