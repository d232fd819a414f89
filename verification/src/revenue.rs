use vstd::prelude::*;
use crate::errors::Error;
use crate::ledger::{ops_view, TokenOp};
use crate::principal::{AuthContext, Principal};
use crate::split::{
    dao_share_of, lemma_split_conservation, producer_share_of, split_revenue, verifier_share_of,
    MAX_SPLIT_TOTAL,
};
use crate::state::ContractState;

verus! {

/// An admin-gated 70/20/10 revenue splitter: incoming revenue held in
/// custody is distributed across the three fixed stakeholder roles, with
/// the rounding residue absorbed by the DAO share.
pub struct RevenueSplit {
    /// The principal of the deployed instance itself, fixed at deployment.
    pub own: Principal,
    /// The persistent record, present exactly when `initialize` succeeded.
    pub state: Option<ContractState>,
}

impl RevenueSplit {
    /// This instance's own principal: revenue is paid out of this identity.
    pub open spec fn spec_own(self) -> Principal {
        self.own
    }

    /// The record written by the one successful `initialize`, if any.
    pub open spec fn spec_state(self) -> Option<ContractState> {
        self.state
    }

    /// Whether `initialize` has ever succeeded on this instance.
    pub open spec fn is_initialized(self) -> bool {
        self.spec_state() is Some
    }

    /// The stored admin principal, if initialized.
    pub open spec fn spec_admin(self) -> Option<Principal> {
        match self.spec_state() {
            Some(c) => Some(c.admin),
            None => None,
        }
    }

    /// The stored token-ledger address, if initialized.
    pub open spec fn spec_token(self) -> Option<Principal> {
        match self.spec_state() {
            Some(c) => Some(c.token),
            None => None,
        }
    }

    /// A freshly deployed instance whose own principal is `own`.
    pub fn new(own: Principal) -> (s: RevenueSplit)
        ensures
            s.spec_own() == own,
            !s.is_initialized(),
    {
        RevenueSplit { own, state: None }
    }

    /// What `initialize` does: refused outright on an instance that already
    /// holds a record, otherwise gated on the new admin's own proof of
    /// control, and only then writing the record, exactly once.
    pub open spec fn initialize_spec(
        self,
        auth: AuthContext,
        admin: Principal,
        token_address: Principal,
    ) -> (RevenueSplit, Result<(), Error>) {
        if self.is_initialized() {
            (self, Err(Error::Unauthorized))
        } else if !auth.grants(admin) {
            (self, Err(Error::Unauthorized))
        } else {
            (
                (RevenueSplit {
                    own: self.own,
                    state: Some(ContractState { admin, token: token_address }),
                }),
                Ok(()),
            )
        }
    }

    /// Records `admin` and `token_address`; may succeed exactly once per
    /// instance, and only with the new admin's self-attestation.
    pub fn initialize(
        &mut self,
        auth: &AuthContext,
        admin: Principal,
        token_address: Principal,
    ) -> (r: Result<(), Error>)
        ensures
            (*final(self), r) == old(self).initialize_spec(*auth, admin, token_address),
    {
        if self.state.is_some() {
            return Err(Error::Unauthorized);
        }
        if !auth.authorizes(admin) {
            return Err(Error::Unauthorized);
        }
        self.state = Some(ContractState { admin, token: token_address });
        Ok(())
    }

    /// What `distribute` does: gated on the stored admin and a positive
    /// total, it issues exactly three transfers out of custody — the floored
    /// 70% to the producer, the floored 20% to the verifier, and the rest,
    /// residue included, to the DAO fund — in that fixed order.
    pub open spec fn distribute_spec(
        self,
        auth: AuthContext,
        producer: Principal,
        verifier: Principal,
        dao: Principal,
        total: i128,
    ) -> Result<Seq<TokenOp>, Error> {
        match self.spec_state() {
            None => Err(Error::NotInitialized),
            Some(c) => if !auth.grants(c.admin) {
                Err(Error::Unauthorized)
            } else if total <= 0 {
                Err(Error::InvalidAmount)
            } else {
                Ok(
                    seq![
                        (TokenOp::Transfer {
                            token: c.token,
                            from: self.spec_own(),
                            to: producer,
                            amount: producer_share_of(total as int) as i128,
                        }),
                        (TokenOp::Transfer {
                            token: c.token,
                            from: self.spec_own(),
                            to: verifier,
                            amount: verifier_share_of(total as int) as i128,
                        }),
                        (TokenOp::Transfer {
                            token: c.token,
                            from: self.spec_own(),
                            to: dao,
                            amount: dao_share_of(total as int) as i128,
                        }),
                    ],
                )
            },
        }
    }

    /// Splits `total` 70/20/10 across the three roles and issues the three
    /// transfers; the shares always sum exactly to `total`.
    pub fn distribute(
        &self,
        auth: &AuthContext,
        producer: Principal,
        verifier: Principal,
        dao: Principal,
        total: i128,
    ) -> (r: Result<Vec<TokenOp>, Error>)
        requires
            self.distribute_spec(*auth, producer, verifier, dao, total) is Ok ==> total
                <= MAX_SPLIT_TOTAL,
        ensures
            ops_view(r) == self.distribute_spec(*auth, producer, verifier, dao, total),
    {
        let c = match self.state {
            Some(c) => c,
            None => {
                return Err(Error::NotInitialized);
            },
        };
        if !auth.authorizes(c.admin) {
            return Err(Error::Unauthorized);
        }
        if total <= 0 {
            return Err(Error::InvalidAmount);
        }
        proof {
            lemma_split_conservation(total as int);
        }
        let (producer_share, verifier_share, dao_share) = split_revenue(total);
        let mut ops: Vec<TokenOp> = Vec::new();
        ops.push(TokenOp::Transfer {
            token: c.token,
            from: self.own,
            to: producer,
            amount: producer_share,
        });
        ops.push(TokenOp::Transfer {
            token: c.token,
            from: self.own,
            to: verifier,
            amount: verifier_share,
        });
        ops.push(TokenOp::Transfer { token: c.token, from: self.own, to: dao, amount: dao_share });
        proof {
            assert(ops@ =~= self.distribute_spec(*auth, producer, verifier, dao, total)->Ok_0);
        }
        Ok(ops)
    }
}

/// Initialization is one-shot: once `initialize` has succeeded, any further
/// `initialize` fails with `Unauthorized` and the stored identities stay
/// what the first call wrote.
pub proof fn lemma_revenue_initialize_one_shot(
    s: RevenueSplit,
    auth1: AuthContext,
    admin1: Principal,
    token1: Principal,
    auth2: AuthContext,
    admin2: Principal,
    token2: Principal,
)
    requires
        s.initialize_spec(auth1, admin1, token1).1 is Ok,
    ensures
        ({
            let s1 = s.initialize_spec(auth1, admin1, token1).0;
            &&& s1.initialize_spec(auth2, admin2, token2) == (s1, Err::<(), Error>(
                Error::Unauthorized,
            ))
            &&& s1.spec_admin() == Some(admin1)
            &&& s1.spec_token() == Some(token1)
        }),
{
}

/// Authorization enforcement: without proof of control for the stored
/// admin, `distribute` fails with `Unauthorized` and issues no instruction.
pub proof fn lemma_distribute_requires_admin(
    s: RevenueSplit,
    auth: AuthContext,
    producer: Principal,
    verifier: Principal,
    dao: Principal,
    total: i128,
)
    requires
        s.is_initialized(),
        !auth.grants(s.spec_admin()->Some_0),
    ensures
        s.distribute_spec(auth, producer, verifier, dao, total) == Err::<Seq<TokenOp>, Error>(
            Error::Unauthorized,
        ),
{
}

/// Positive-amount invariant: an authorized `distribute` of a zero or
/// negative total fails with `InvalidAmount` and issues no instruction.
pub proof fn lemma_distribute_rejects_nonpositive_total(
    s: RevenueSplit,
    auth: AuthContext,
    producer: Principal,
    verifier: Principal,
    dao: Principal,
    total: i128,
)
    requires
        total <= 0,
        s.is_initialized(),
    ensures
        auth.grants(s.spec_admin()->Some_0) ==> s.distribute_spec(
            auth,
            producer,
            verifier,
            dao,
            total,
        ) == Err::<Seq<TokenOp>, Error>(Error::InvalidAmount),
{
}

/// Split conservation at the instruction level: every successful
/// `distribute` issues exactly three transfers out of custody to the three
/// roles in order, and their amounts sum exactly to the total.
pub proof fn lemma_distribute_conserves_total(
    s: RevenueSplit,
    auth: AuthContext,
    producer: Principal,
    verifier: Principal,
    dao: Principal,
    total: i128,
)
    requires
        s.distribute_spec(auth, producer, verifier, dao, total) is Ok,
    ensures
        ({
            let ops = s.distribute_spec(auth, producer, verifier, dao, total)->Ok_0;
            &&& ops.len() == 3
            &&& ops[0] matches TokenOp::Transfer { from: f0, to: t0, amount: a0, .. }
                && f0 == s.spec_own() && t0 == producer && a0 == producer_share_of(total as int)
            &&& ops[1] matches TokenOp::Transfer { from: f1, to: t1, amount: a1, .. }
                && f1 == s.spec_own() && t1 == verifier && a1 == verifier_share_of(total as int)
            &&& ops[2] matches TokenOp::Transfer { from: f2, to: t2, amount: a2, .. }
                && f2 == s.spec_own() && t2 == dao && a2 == dao_share_of(total as int)
            &&& producer_share_of(total as int) + verifier_share_of(total as int) + dao_share_of(
                total as int,
            ) == total
        }),
{
    lemma_split_conservation(total as int);
}

/// Pre-initialization guard: on a fresh instance `distribute` fails with
/// `NotInitialized`, whatever the credentials, roles or total.
pub proof fn lemma_distribute_fresh_instance_guard(
    s: RevenueSplit,
    auth: AuthContext,
    producer: Principal,
    verifier: Principal,
    dao: Principal,
    total: i128,
)
    requires
        !s.is_initialized(),
    ensures
        s.distribute_spec(auth, producer, verifier, dao, total) == Err::<Seq<TokenOp>, Error>(
            Error::NotInitialized,
        ),
{
}

} // verus!
