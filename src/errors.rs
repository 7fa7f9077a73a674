use vstd::prelude::*;

verus! {

/// Every way in which a request on the streams can fail.
#[derive(PartialEq, Eq, Structural, Debug, Clone, Copy)]
pub enum ContractError {
    ValidationError,
    Unauthorized,
    GeneralError,
    StreamDoesNotExist,
    EndDateAndDurationAreEmpty,
    StreamDurationShouldBeGreater,
    StreamEndDateShouldBeLater,
    StreamAvailableBalanceIsZero,
    EmptyFunds,
    ExpectedWithdrawalAmountExceedsStreamAvailableBalance,
    RecipientCannotBePayer,
    WithdrawTransferFailed,
    WithdrawalAmountShouldBeGreaterThanZero,
    Unexpected,
}

} // verus!
