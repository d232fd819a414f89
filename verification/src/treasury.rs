use vstd::prelude::*;
use crate::errors::Error;
use crate::ledger::{ops_view, TokenOp};
use crate::principal::{AuthContext, Principal};
use crate::state::ContractState;

verus! {

/// A custodial treasury: accepts deposits into custody under its own
/// principal and releases funds only through admin-authorized withdrawals.
pub struct DaoTreasury {
    /// The principal of the deployed instance itself, fixed at deployment.
    pub own: Principal,
    /// The persistent record, present exactly when `initialize` succeeded.
    pub state: Option<ContractState>,
}

impl DaoTreasury {
    /// This instance's own principal: custody is held under this identity.
    pub open spec fn spec_own(self) -> Principal {
        self.own
    }

    /// The record written by the one successful `initialize`, if any.
    pub open spec fn spec_state(self) -> Option<ContractState> {
        self.state
    }

    /// Whether `initialize` has ever succeeded on this instance.
    pub open spec fn is_initialized(self) -> bool {
        self.spec_state() is Some
    }

    /// The stored admin principal, if initialized.
    pub open spec fn spec_admin(self) -> Option<Principal> {
        match self.spec_state() {
            Some(c) => Some(c.admin),
            None => None,
        }
    }

    /// The stored token-ledger address, if initialized.
    pub open spec fn spec_token(self) -> Option<Principal> {
        match self.spec_state() {
            Some(c) => Some(c.token),
            None => None,
        }
    }

    /// A freshly deployed instance whose own principal is `own`: no admin,
    /// no token, and every operation but `initialize` refused.
    pub fn new(own: Principal) -> (t: DaoTreasury)
        ensures
            t.spec_own() == own,
            !t.is_initialized(),
    {
        DaoTreasury { own, state: None }
    }

    /// What `initialize` does: refused outright on an instance that already
    /// holds a record, otherwise gated on the new admin's own proof of
    /// control, and only then writing the record, exactly once.
    pub open spec fn initialize_spec(
        self,
        auth: AuthContext,
        admin: Principal,
        treasury_token: Principal,
    ) -> (DaoTreasury, Result<(), Error>) {
        if self.is_initialized() {
            (self, Err(Error::Unauthorized))
        } else if !auth.grants(admin) {
            (self, Err(Error::Unauthorized))
        } else {
            (
                (DaoTreasury {
                    own: self.own,
                    state: Some(ContractState { admin, token: treasury_token }),
                }),
                Ok(()),
            )
        }
    }

    /// Records `admin` and `treasury_token`; may succeed exactly once per
    /// instance, and only with the new admin's self-attestation.
    pub fn initialize(
        &mut self,
        auth: &AuthContext,
        admin: Principal,
        treasury_token: Principal,
    ) -> (r: Result<(), Error>)
        ensures
            (*final(self), r) == old(self).initialize_spec(*auth, admin, treasury_token),
    {
        if self.state.is_some() {
            return Err(Error::Unauthorized);
        }
        if !auth.authorizes(admin) {
            return Err(Error::Unauthorized);
        }
        self.state = Some(ContractState { admin, token: treasury_token });
        Ok(())
    }

    /// What `deposit` does: a positive amount and the depositor's own proof
    /// of control buy one transfer of `amount` from `from` into custody, on
    /// the stored ledger.
    pub open spec fn deposit_spec(
        self,
        auth: AuthContext,
        from: Principal,
        amount: i128,
    ) -> Result<Seq<TokenOp>, Error> {
        if amount <= 0 {
            Err(Error::InvalidAmount)
        } else if !auth.grants(from) {
            Err(Error::Unauthorized)
        } else {
            match self.spec_state() {
                None => Err(Error::NotInitialized),
                Some(c) => Ok(
                    seq![
                        (TokenOp::Transfer {
                            token: c.token,
                            from,
                            to: self.spec_own(),
                            amount,
                        }),
                    ],
                ),
            }
        }
    }

    /// Moves `amount` from `from` into custody under this instance's own
    /// principal. Mutates nothing: the returned batch is the whole effect.
    pub fn deposit(&self, auth: &AuthContext, from: Principal, amount: i128) -> (r: Result<
        Vec<TokenOp>,
        Error,
    >)
        ensures
            ops_view(r) == self.deposit_spec(*auth, from, amount),
    {
        if amount <= 0 {
            return Err(Error::InvalidAmount);
        }
        if !auth.authorizes(from) {
            return Err(Error::Unauthorized);
        }
        let c = match self.state {
            Some(c) => c,
            None => {
                return Err(Error::NotInitialized);
            },
        };
        let mut ops: Vec<TokenOp> = Vec::new();
        ops.push(TokenOp::Transfer { token: c.token, from, to: self.own, amount });
        Ok(ops)
    }

    /// What `withdraw` does: a positive amount and the stored admin's proof
    /// of control buy one transfer of `amount` out of custody to `to`. The
    /// gate checks the stored admin, never a caller-supplied principal.
    pub open spec fn withdraw_spec(self, auth: AuthContext, to: Principal, amount: i128) -> Result<
        Seq<TokenOp>,
        Error,
    > {
        if amount <= 0 {
            Err(Error::InvalidAmount)
        } else {
            match self.spec_state() {
                None => Err(Error::NotInitialized),
                Some(c) => if !auth.grants(c.admin) {
                    Err(Error::Unauthorized)
                } else {
                    Ok(
                        seq![
                            (TokenOp::Transfer {
                                token: c.token,
                                from: self.spec_own(),
                                to,
                                amount,
                            }),
                        ],
                    )
                },
            }
        }
    }

    /// Releases `amount` from custody to `to`, gated on the stored admin.
    pub fn withdraw(&self, auth: &AuthContext, to: Principal, amount: i128) -> (r: Result<
        Vec<TokenOp>,
        Error,
    >)
        ensures
            ops_view(r) == self.withdraw_spec(*auth, to, amount),
    {
        if amount <= 0 {
            return Err(Error::InvalidAmount);
        }
        let c = match self.state {
            Some(c) => c,
            None => {
                return Err(Error::NotInitialized);
            },
        };
        if !auth.authorizes(c.admin) {
            return Err(Error::Unauthorized);
        }
        let mut ops: Vec<TokenOp> = Vec::new();
        ops.push(TokenOp::Transfer { token: c.token, from: self.own, to, amount });
        Ok(ops)
    }
}

/// Initialization is one-shot: once `initialize` has succeeded, any further
/// `initialize` fails with `Unauthorized`, whatever credentials or arguments
/// it carries, and the stored admin and token stay what the first call wrote.
pub proof fn lemma_treasury_initialize_one_shot(
    t: DaoTreasury,
    auth1: AuthContext,
    admin1: Principal,
    token1: Principal,
    auth2: AuthContext,
    admin2: Principal,
    token2: Principal,
)
    requires
        t.initialize_spec(auth1, admin1, token1).1 is Ok,
    ensures
        ({
            let t1 = t.initialize_spec(auth1, admin1, token1).0;
            &&& t1.initialize_spec(auth2, admin2, token2) == (t1, Err::<(), Error>(
                Error::Unauthorized,
            ))
            &&& t1.spec_admin() == Some(admin1)
            &&& t1.spec_token() == Some(token1)
        }),
{
}

/// Authorization enforcement: without proof of control for the stored admin,
/// `withdraw` fails with `Unauthorized` and issues no instruction; a
/// depositor likewise cannot deposit another principal's funds.
pub proof fn lemma_treasury_requires_authorization(
    t: DaoTreasury,
    auth: AuthContext,
    p: Principal,
    amount: i128,
)
    requires
        amount > 0,
        t.is_initialized(),
    ensures
        !auth.grants(t.spec_admin()->Some_0) ==> t.withdraw_spec(auth, p, amount) == Err::<
            Seq<TokenOp>,
            Error,
        >(Error::Unauthorized),
        !auth.grants(p) ==> t.deposit_spec(auth, p, amount) == Err::<Seq<TokenOp>, Error>(
            Error::Unauthorized,
        ),
{
}

/// Positive-amount invariant: a zero or negative amount fails with
/// `InvalidAmount` before anything else is even examined, with no ledger
/// side effect.
pub proof fn lemma_treasury_rejects_nonpositive_amounts(
    t: DaoTreasury,
    auth: AuthContext,
    p: Principal,
    amount: i128,
)
    requires
        amount <= 0,
    ensures
        t.deposit_spec(auth, p, amount) == Err::<Seq<TokenOp>, Error>(Error::InvalidAmount),
        t.withdraw_spec(auth, p, amount) == Err::<Seq<TokenOp>, Error>(Error::InvalidAmount),
{
}

/// Pre-initialization guard: on a fresh instance every operation besides
/// `initialize` fails with `NotInitialized` once its input validation and,
/// for `deposit`, the depositor's own gate have passed.
pub proof fn lemma_treasury_fresh_instance_guard(
    t: DaoTreasury,
    auth: AuthContext,
    p: Principal,
    amount: i128,
)
    requires
        !t.is_initialized(),
        amount > 0,
    ensures
        auth.grants(p) ==> t.deposit_spec(auth, p, amount) == Err::<Seq<TokenOp>, Error>(
            Error::NotInitialized,
        ),
        t.withdraw_spec(auth, p, amount) == Err::<Seq<TokenOp>, Error>(Error::NotInitialized),
{
}

} // verus!
