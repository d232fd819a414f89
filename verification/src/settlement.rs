use vstd::prelude::*;
use crate::errors::Error;
use crate::ledger::{receipt_view, DistributionRecord, Event, Receipt, ReceiptModel, TokenOp};
use crate::principal::{AuthContext, Principal};
use crate::split::{
    dao_share_of, lemma_split_conservation, producer_share_of, split_revenue, verifier_share_of,
    MAX_SPLIT_TOTAL,
};
use crate::state::ContractState;

verus! {

/// The full settlement contract: custodial payouts plus 70/20/10 revenue
/// distribution, each successful operation also appending an audit event
/// for external reconciliation.
pub struct CanaCeroContract {
    /// The principal of the deployed instance itself, fixed at deployment.
    pub own: Principal,
    /// The persistent record, present exactly when `initialize` succeeded.
    pub state: Option<ContractState>,
}

impl CanaCeroContract {
    /// This instance's own principal: custody is held under this identity.
    pub open spec fn spec_own(self) -> Principal {
        self.own
    }

    /// The record written by the one successful `initialize`, if any.
    pub open spec fn spec_state(self) -> Option<ContractState> {
        self.state
    }

    /// Whether `initialize` has ever succeeded on this instance.
    pub open spec fn is_initialized(self) -> bool {
        self.spec_state() is Some
    }

    /// The stored admin principal, if initialized.
    pub open spec fn spec_admin(self) -> Option<Principal> {
        match self.spec_state() {
            Some(c) => Some(c.admin),
            None => None,
        }
    }

    /// The stored token-ledger address, if initialized.
    pub open spec fn spec_token(self) -> Option<Principal> {
        match self.spec_state() {
            Some(c) => Some(c.token),
            None => None,
        }
    }

    /// A freshly deployed instance whose own principal is `own`.
    pub fn new(own: Principal) -> (c: CanaCeroContract)
        ensures
            c.spec_own() == own,
            !c.is_initialized(),
    {
        CanaCeroContract { own, state: None }
    }

    /// What `initialize` does: refused outright on an instance that already
    /// holds a record, otherwise gated on the new admin's own proof of
    /// control, and only then writing the record, exactly once.
    pub open spec fn initialize_spec(
        self,
        auth: AuthContext,
        admin: Principal,
        token_address: Principal,
    ) -> (CanaCeroContract, Result<(), Error>) {
        if self.is_initialized() {
            (self, Err(Error::Unauthorized))
        } else if !auth.grants(admin) {
            (self, Err(Error::Unauthorized))
        } else {
            (
                (CanaCeroContract {
                    own: self.own,
                    state: Some(ContractState { admin, token: token_address }),
                }),
                Ok(()),
            )
        }
    }

    /// Records `admin` and `token_address`; may succeed exactly once per
    /// instance, and only with the new admin's self-attestation.
    pub fn initialize(
        &mut self,
        auth: &AuthContext,
        admin: Principal,
        token_address: Principal,
    ) -> (r: Result<(), Error>)
        ensures
            (*final(self), r) == old(self).initialize_spec(*auth, admin, token_address),
    {
        if self.state.is_some() {
            return Err(Error::Unauthorized);
        }
        if !auth.authorizes(admin) {
            return Err(Error::Unauthorized);
        }
        self.state = Some(ContractState { admin, token: token_address });
        Ok(())
    }

    /// What `payout_from_contract` does: gated on the stored admin — never
    /// on a caller-supplied principal — and a positive amount, it issues one
    /// transfer out of custody to `to` and one audit event recording it.
    pub open spec fn payout_spec(self, auth: AuthContext, to: Principal, amount: i128) -> Result<
        ReceiptModel,
        Error,
    > {
        match self.spec_state() {
            None => Err(Error::NotInitialized),
            Some(c) => if !auth.grants(c.admin) {
                Err(Error::Unauthorized)
            } else if amount <= 0 {
                Err(Error::InvalidAmount)
            } else {
                Ok(
                    (ReceiptModel {
                        token_ops: seq![
                            (TokenOp::Transfer {
                                token: c.token,
                                from: self.spec_own(),
                                to,
                                amount,
                            }),
                        ],
                        events: seq![(Event::Payout { to, amount })],
                    }),
                )
            },
        }
    }

    /// Pays `amount` from the contract's custody to `to`: a transfer on the
    /// stored ledger, not a mint. Audited via a payout event.
    pub fn payout_from_contract(&self, auth: &AuthContext, to: Principal, amount: i128) -> (r:
        Result<Receipt, Error>)
        ensures
            receipt_view(r) == self.payout_spec(*auth, to, amount),
    {
        let c = match self.state {
            Some(c) => c,
            None => {
                return Err(Error::NotInitialized);
            },
        };
        if !auth.authorizes(c.admin) {
            return Err(Error::Unauthorized);
        }
        if amount <= 0 {
            return Err(Error::InvalidAmount);
        }
        let mut token_ops: Vec<TokenOp> = Vec::new();
        token_ops.push(TokenOp::Transfer { token: c.token, from: self.own, to, amount });
        let mut events: Vec<Event> = Vec::new();
        events.push(Event::Payout { to, amount });
        let receipt = Receipt { token_ops, events };
        proof {
            assert(receipt@.token_ops =~= self.payout_spec(*auth, to, amount)->Ok_0.token_ops);
            assert(receipt@.events =~= self.payout_spec(*auth, to, amount)->Ok_0.events);
        }
        Ok(receipt)
    }

    /// What `distribute_revenue` does: gated on the stored admin and a
    /// positive total, it issues the three split transfers in the fixed
    /// order producer, verifier, DAO fund, and one audit event carrying the
    /// four reconciliation figures.
    pub open spec fn distribute_revenue_spec(
        self,
        auth: AuthContext,
        producer: Principal,
        verifier: Principal,
        dao_fund: Principal,
        total: i128,
    ) -> Result<ReceiptModel, Error> {
        match self.spec_state() {
            None => Err(Error::NotInitialized),
            Some(c) => if !auth.grants(c.admin) {
                Err(Error::Unauthorized)
            } else if total <= 0 {
                Err(Error::InvalidAmount)
            } else {
                Ok(self.distribution_receipt(c, producer, verifier, dao_fund, total))
            },
        }
    }

    /// The exact receipt of a successful distribution of `total`.
    pub open spec fn distribution_receipt(
        self,
        c: ContractState,
        producer: Principal,
        verifier: Principal,
        dao_fund: Principal,
        total: i128,
    ) -> ReceiptModel {
        let producer_share = producer_share_of(total as int) as i128;
        let verifier_share = verifier_share_of(total as int) as i128;
        let dao_share = dao_share_of(total as int) as i128;
        ReceiptModel {
            token_ops: seq![
                (TokenOp::Transfer {
                    token: c.token,
                    from: self.spec_own(),
                    to: producer,
                    amount: producer_share,
                }),
                (TokenOp::Transfer {
                    token: c.token,
                    from: self.spec_own(),
                    to: verifier,
                    amount: verifier_share,
                }),
                (TokenOp::Transfer {
                    token: c.token,
                    from: self.spec_own(),
                    to: dao_fund,
                    amount: dao_share,
                }),
            ],
            events: seq![
                (Event::Distribution {
                    producer,
                    verifier,
                    dao_fund,
                    record: DistributionRecord { total, producer_share, verifier_share, dao_share },
                }),
            ],
        }
    }

    /// Splits `total` 70/20/10 across the three roles, issues the three
    /// transfers out of custody, and audits the four figures in one
    /// distribution event; the shares always sum exactly to `total`.
    pub fn distribute_revenue(
        &self,
        auth: &AuthContext,
        producer: Principal,
        verifier: Principal,
        dao_fund: Principal,
        total: i128,
    ) -> (r: Result<Receipt, Error>)
        requires
            self.distribute_revenue_spec(*auth, producer, verifier, dao_fund, total) is Ok
                ==> total <= MAX_SPLIT_TOTAL,
        ensures
            receipt_view(r) == self.distribute_revenue_spec(*auth, producer, verifier, dao_fund, total),
    {
        let c = match self.state {
            Some(c) => c,
            None => {
                return Err(Error::NotInitialized);
            },
        };
        if !auth.authorizes(c.admin) {
            return Err(Error::Unauthorized);
        }
        if total <= 0 {
            return Err(Error::InvalidAmount);
        }
        proof {
            lemma_split_conservation(total as int);
        }
        let (producer_share, verifier_share, dao_share) = split_revenue(total);
        let mut token_ops: Vec<TokenOp> = Vec::new();
        token_ops.push(TokenOp::Transfer {
            token: c.token,
            from: self.own,
            to: producer,
            amount: producer_share,
        });
        token_ops.push(TokenOp::Transfer {
            token: c.token,
            from: self.own,
            to: verifier,
            amount: verifier_share,
        });
        token_ops.push(TokenOp::Transfer {
            token: c.token,
            from: self.own,
            to: dao_fund,
            amount: dao_share,
        });
        let mut events: Vec<Event> = Vec::new();
        events.push(Event::Distribution {
            producer,
            verifier,
            dao_fund,
            record: DistributionRecord { total, producer_share, verifier_share, dao_share },
        });
        let receipt = Receipt { token_ops, events };
        proof {
            let model = self.distribution_receipt(c, producer, verifier, dao_fund, total);
            assert(receipt@.token_ops =~= model.token_ops);
            assert(receipt@.events =~= model.events);
        }
        Ok(receipt)
    }
}

/// Initialization is one-shot: once `initialize` has succeeded, any further
/// `initialize` fails with `Unauthorized` and the stored identities stay
/// what the first call wrote.
pub proof fn lemma_settlement_initialize_one_shot(
    s: CanaCeroContract,
    auth1: AuthContext,
    admin1: Principal,
    token1: Principal,
    auth2: AuthContext,
    admin2: Principal,
    token2: Principal,
)
    requires
        s.initialize_spec(auth1, admin1, token1).1 is Ok,
    ensures
        ({
            let s1 = s.initialize_spec(auth1, admin1, token1).0;
            &&& s1.initialize_spec(auth2, admin2, token2) == (s1, Err::<(), Error>(
                Error::Unauthorized,
            ))
            &&& s1.spec_admin() == Some(admin1)
            &&& s1.spec_token() == Some(token1)
        }),
{
}

/// Authorization enforcement: without proof of control for the stored
/// admin, `payout_from_contract` and `distribute_revenue` fail with
/// `Unauthorized` and issue neither instructions nor events.
pub proof fn lemma_settlement_requires_admin(
    s: CanaCeroContract,
    auth: AuthContext,
    producer: Principal,
    verifier: Principal,
    dao_fund: Principal,
    amount: i128,
)
    requires
        s.is_initialized(),
        !auth.grants(s.spec_admin()->Some_0),
    ensures
        s.payout_spec(auth, producer, amount) == Err::<ReceiptModel, Error>(Error::Unauthorized),
        s.distribute_revenue_spec(auth, producer, verifier, dao_fund, amount) == Err::<
            ReceiptModel,
            Error,
        >(Error::Unauthorized),
{
}

/// Positive-amount invariant: an authorized payout or distribution of a
/// zero or negative amount fails with `InvalidAmount`, with no effect.
pub proof fn lemma_settlement_rejects_nonpositive_amounts(
    s: CanaCeroContract,
    auth: AuthContext,
    producer: Principal,
    verifier: Principal,
    dao_fund: Principal,
    amount: i128,
)
    requires
        amount <= 0,
        s.is_initialized(),
        auth.grants(s.spec_admin()->Some_0),
    ensures
        s.payout_spec(auth, producer, amount) == Err::<ReceiptModel, Error>(Error::InvalidAmount),
        s.distribute_revenue_spec(auth, producer, verifier, dao_fund, amount) == Err::<
            ReceiptModel,
            Error,
        >(Error::InvalidAmount),
{
}

/// Split conservation at the receipt level: a successful distribution
/// issues exactly three transfers whose amounts sum to the total, and the
/// audited record carries those same four figures.
pub proof fn lemma_distribution_receipt_conserves_total(
    s: CanaCeroContract,
    auth: AuthContext,
    producer: Principal,
    verifier: Principal,
    dao_fund: Principal,
    total: i128,
)
    requires
        s.distribute_revenue_spec(auth, producer, verifier, dao_fund, total) is Ok,
    ensures
        ({
            let m = s.distribute_revenue_spec(auth, producer, verifier, dao_fund, total)->Ok_0;
            &&& m.token_ops.len() == 3
            &&& m.events.len() == 1
            &&& m.events[0] matches Event::Distribution { record, .. } && {
                &&& record.total == total
                &&& record.producer_share + record.verifier_share + record.dao_share == total
                &&& 0 <= record.producer_share
                &&& 0 <= record.verifier_share
                &&& 0 <= record.dao_share
                &&& m.token_ops[0] matches TokenOp::Transfer { amount: a0, .. } && a0
                    == record.producer_share
                &&& m.token_ops[1] matches TokenOp::Transfer { amount: a1, .. } && a1
                    == record.verifier_share
                &&& m.token_ops[2] matches TokenOp::Transfer { amount: a2, .. } && a2
                    == record.dao_share
            }
        }),
{
    lemma_split_conservation(total as int);
}

/// Pre-initialization guard: on a fresh instance both audited operations
/// fail with `NotInitialized`, whatever the credentials or arguments.
pub proof fn lemma_settlement_fresh_instance_guard(
    s: CanaCeroContract,
    auth: AuthContext,
    producer: Principal,
    verifier: Principal,
    dao_fund: Principal,
    amount: i128,
)
    requires
        !s.is_initialized(),
    ensures
        s.payout_spec(auth, producer, amount) == Err::<ReceiptModel, Error>(Error::NotInitialized),
        s.distribute_revenue_spec(auth, producer, verifier, dao_fund, amount) == Err::<
            ReceiptModel,
            Error,
        >(Error::NotInitialized),
{
}

} // verus!
