//! The failure taxonomy surfaced to callers.

use vstd::prelude::*;

verus! {

/// A domain-specific failure of the bounty board. Each variant carries a
/// stable numeric code (its position in this list) that the host ledger
/// reports to the caller.
#[derive(Clone, Copy, Debug, PartialEq, Eq, Structural)]
pub enum BountyBoardError {
    InvalidInstruction,
    NotRentExempt,
    BoardAlreadyInitialized,
    BoardNotInitialized,
    BoardIsClosed,
    TaskAlreadyCompleted,
    TaskIsCancelled,
    TaskDeadlinePassed,
    NotABoardMember,
    NotATaskReviewer,
    InvalidSignature,
    SelfCheckNotAllowed,
    InsufficientFunds,
    AlreadyApproved,
    NoSubmissionFound,
}

impl BountyBoardError {
    /// The stable code of this failure, in declaration order.
    pub open spec fn spec_code(self) -> u32 {
        match self {
            BountyBoardError::InvalidInstruction => 0,
            BountyBoardError::NotRentExempt => 1,
            BountyBoardError::BoardAlreadyInitialized => 2,
            BountyBoardError::BoardNotInitialized => 3,
            BountyBoardError::BoardIsClosed => 4,
            BountyBoardError::TaskAlreadyCompleted => 5,
            BountyBoardError::TaskIsCancelled => 6,
            BountyBoardError::TaskDeadlinePassed => 7,
            BountyBoardError::NotABoardMember => 8,
            BountyBoardError::NotATaskReviewer => 9,
            BountyBoardError::InvalidSignature => 10,
            BountyBoardError::SelfCheckNotAllowed => 11,
            BountyBoardError::InsufficientFunds => 12,
            BountyBoardError::AlreadyApproved => 13,
            BountyBoardError::NoSubmissionFound => 14,
        }
    }

    /// The numeric code that the host ledger surfaces for this failure.
    pub fn code(&self) -> (r: u32)
        ensures
            r == self.spec_code(),
    {
        match self {
            BountyBoardError::InvalidInstruction => 0,
            BountyBoardError::NotRentExempt => 1,
            BountyBoardError::BoardAlreadyInitialized => 2,
            BountyBoardError::BoardNotInitialized => 3,
            BountyBoardError::BoardIsClosed => 4,
            BountyBoardError::TaskAlreadyCompleted => 5,
            BountyBoardError::TaskIsCancelled => 6,
            BountyBoardError::TaskDeadlinePassed => 7,
            BountyBoardError::NotABoardMember => 8,
            BountyBoardError::NotATaskReviewer => 9,
            BountyBoardError::InvalidSignature => 10,
            BountyBoardError::SelfCheckNotAllowed => 11,
            BountyBoardError::InsufficientFunds => 12,
            BountyBoardError::AlreadyApproved => 13,
            BountyBoardError::NoSubmissionFound => 14,
        }
    }
}

/// What a handler returns when it refuses an instruction: a domain failure,
/// or one of the host runtime's own failure kinds that the handlers raise
/// directly (a missing signature, an account that is not the one required,
/// a payload that does not decode).
#[derive(Clone, Copy, Debug, PartialEq, Eq, Structural)]
pub enum ProgError {
    Custom(BountyBoardError),
    MissingRequiredSignature,
    InvalidAccountData,
    InvalidInstructionData,
}

} // verus!
