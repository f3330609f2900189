use vstd::prelude::*;

verus! {

/// Every failure that an escrow operation can report.
#[derive(Copy, Clone, Debug, PartialEq, Eq, Structural)]
pub enum Error {
    // state errors
    TaskNotFound,
    TaskAlreadyExists,
    InvalidTaskStatus,
    ContractNotInitialized,
    // authorization errors
    Unauthorized,
    NotTaskCreator,
    NotTaskContributor,
    NotAdmin,
    OnlyCreatorOrContributor,
    // business-rule errors
    ContributorAlreadyAssigned,
    NoContributorAssigned,
    InsufficientBalance,
    TaskNotCompleted,
    TaskNotDisputed,
    TaskAlreadyResolved,
    CannotRefundWithContributor,
    // token errors
    TokenTransferFailed,
    InvalidTokenAmount,
    TokenContractNotSet,
    // validation errors
    InvalidTaskId,
    InvalidAddress,
    InvalidAmount,
    InvalidDisputeReason,
    EmptyTaskId,
    TaskIdTooShort,
    TaskIdTooLong,
    InvalidTaskIdCharacters,
    AmountTooSmall,
    DisputeReasonTooShort,
    InvalidIssueUrl,
    // operational errors
    ContractPaused,
}

} // verus!
