use vstd::prelude::*;

verus! {

/// The errors that the fundraiser's own rules raise.
#[derive(Clone, Copy, Debug, PartialEq, Eq, Structural)]
pub enum FundraiserError {
    /// The target was not completed.
    FundraisingNotCompleted,
    /// A contribution must be larger than the minimum unit of the mint.
    ContributionTooSmall,
    /// A contribution may not exceed the per-contributor share of the target.
    ContributionTooBig,
    /// The fundraising period does not admit contributions.
    FundraiserEnded,
    /// The contributor has reached the per-contributor share of the target.
    MaximumContributionsReached,
    /// The vault does not hold the target yet.
    TargetNotMet,
    /// The fundraising period does not admit refunds.
    FundraiserNotEnded,
    /// The vault holds the target: contributions are no longer refunded.
    TargetMet,
}

/// Why an instruction failed.
#[derive(Clone, Copy, Debug, PartialEq, Eq, Structural)]
pub enum ProgramFault {
    /// One of the fundraiser's own rules refused the instruction.
    Fundraiser(FundraiserError),
    /// The instruction data has the wrong shape.
    InvalidInstructionData,
    /// An account, or the list of accounts, has the wrong shape.
    InvalidAccountData,
    /// An account that must sign did not, or one that must not sign did.
    MissingRequiredSignature,
    /// An account that must be empty holds data.
    AccountAlreadyInitialized,
    /// An account that must hold initialized state does not.
    UninitializedAccount,
    /// An amount or a count of days overflowed: the instruction is aborted.
    ArithmeticOverflow,
    /// The runtime, another program or a sysvar read failed; this is the
    /// builtin error code that it reported.
    Runtime(u64),
}

/// A reading from the runtime that, when it failed, failed with the
/// runtime's own error code.
pub open spec fn is_runtime_fault<T>(reading: Result<T, ProgramFault>) -> bool {
    reading matches Err(e) ==> e is Runtime
}

} // verus!
