use vstd::prelude::*;
use crate::principal::Principal;

verus! {

/// The persistent record of one deployed instance, created exactly once by
/// `initialize` and never deleted. Its existence is the sole gate for every
/// other operation.
#[derive(Clone, Copy, Debug, PartialEq, Eq, Structural)]
pub struct ContractState {
    /// The principal with authority over withdrawals, distribution and
    /// minter delegation.
    pub admin: Principal,
    /// The address of the external fungible-token ledger this instance
    /// instructs.
    pub token: Principal,
}

/// The persistent record of a credit-token controller instance: the shared
/// admin/token pair plus the currently delegated minter.
#[derive(Clone, Copy, Debug, PartialEq, Eq, Structural)]
pub struct MinterState {
    pub admin: Principal,
    pub token: Principal,
    /// The principal authorized to mint and burn; defaults to the instance's
    /// own principal at initialization and is overwritten by `set_minter`,
    /// last write wins.
    pub minter: Principal,
}

} // verus!
