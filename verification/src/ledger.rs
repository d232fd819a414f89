use vstd::prelude::*;
use crate::errors::Error;
use crate::principal::Principal;

verus! {

/// One instruction for the external fungible-token ledger.
///
/// The engine never touches balances itself: each successful operation
/// returns the exact batch of instructions the host must deliver, in order,
/// to the token contract named by the stored token address. A failed
/// operation returns no instructions at all, so atomicity is by
/// construction: there is nothing to roll back.
#[derive(Clone, Copy, Debug, PartialEq, Eq, Structural)]
pub enum TokenOp {
    /// Move `amount` from `from` to `to` on the ledger at `token`.
    Transfer { token: Principal, from: Principal, to: Principal, amount: i128 },
    /// Create `amount` new units credited to `to` on the ledger at `token`.
    Mint { token: Principal, to: Principal, amount: i128 },
    /// Destroy `amount` units held by `from` on the ledger at `token`.
    Burn { token: Principal, from: Principal, amount: i128 },
}

/// The audited outcome of one revenue distribution, emitted for external
/// reconciliation and then discarded: the engine never reads it back.
#[derive(Clone, Copy, Debug, PartialEq, Eq, Structural)]
pub struct DistributionRecord {
    pub total: i128,
    pub producer_share: i128,
    pub verifier_share: i128,
    pub dao_share: i128,
}

/// An audit event appended to the host's event sink, fire-and-forget.
#[derive(Clone, Copy, Debug, PartialEq, Eq, Structural)]
pub enum Event {
    /// A custodial payout of `amount` to `to` was settled.
    Payout { to: Principal, amount: i128 },
    /// A revenue distribution across the three fixed roles was settled.
    Distribution {
        producer: Principal,
        verifier: Principal,
        dao_fund: Principal,
        record: DistributionRecord,
    },
}

/// What one successful audited operation hands back to the host: the token
/// instructions to deliver, then the events to append to the sink.
#[derive(Debug)]
pub struct Receipt {
    pub token_ops: Vec<TokenOp>,
    pub events: Vec<Event>,
}

/// The mathematical content of a `Receipt`.
pub struct ReceiptModel {
    pub token_ops: Seq<TokenOp>,
    pub events: Seq<Event>,
}

impl View for Receipt {
    type V = ReceiptModel;

    open spec fn view(&self) -> ReceiptModel {
        ReceiptModel { token_ops: self.token_ops@, events: self.events@ }
    }
}

/// Lifts an executable instruction-batch result to its model.
pub open spec fn ops_view(r: Result<Vec<TokenOp>, Error>) -> Result<Seq<TokenOp>, Error> {
    match r {
        Ok(v) => Ok(v@),
        Err(e) => Err(e),
    }
}

/// Lifts an executable receipt result to its model.
pub open spec fn receipt_view(r: Result<Receipt, Error>) -> Result<ReceiptModel, Error> {
    match r {
        Ok(v) => Ok(v@),
        Err(e) => Err(e),
    }
}

} // verus!
