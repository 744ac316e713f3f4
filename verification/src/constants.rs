use vstd::prelude::*;

verus! {

/// Number of seconds in one day: the fundraiser counts its duration in whole days.
pub const SECONDS_TO_DAYS: i64 = 86400;

/// The largest share of the target that one contributor may give, in percent.
pub const MAX_CONTRIBUTION_PERCENTAGE: u64 = 10;

/// The scale of `MAX_CONTRIBUTION_PERCENTAGE`.
pub const PERCENTAGE_SCALER: u64 = 100;

} // verus!
