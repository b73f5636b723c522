use vstd::prelude::*;

verus! {

/// The ways an operation on the farm can be rejected. A rejected
/// operation leaves every record exactly as it was.
#[derive(Clone, Copy, Debug, PartialEq, Eq)]
pub enum ErrorCode {
    /// A withdrawal asked for more than the user's recorded balance.
    InsufficientFunds,
    /// An administrative operation was invoked by someone other than the
    /// farm's recorded authority.
    Unauthorized,
    /// Declared for allocation validation; no operation raises it yet.
    InvalidAllocation,
}

} // verus!
