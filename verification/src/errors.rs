use vstd::prelude::*;

verus! {

/// The three failure kinds shared by every engine operation.
///
/// Every operation either commits in full or fails with one of these and has
/// no effect at all: no instruction is issued and no stored identity changes.
#[derive(Clone, Copy, Debug, PartialEq, Eq, Structural)]
pub enum Error {
    /// A privileged read of the stored admin/token/minter was attempted
    /// before `initialize` ever succeeded.
    NotInitialized,
    /// Either `initialize` was called on an already-initialized instance, or
    /// the call carried no proof of control for the required principal.
    Unauthorized,
    /// A supplied token amount was zero or negative.
    InvalidAmount,
}

} // verus!
