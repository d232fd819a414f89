use vstd::prelude::*;
use crate::errors::Error;
use crate::ledger::{ops_view, TokenOp};
use crate::principal::{AuthContext, Principal};
use crate::state::MinterState;

verus! {

/// The credit-token controller: an admin-delegated minter role that mints
/// and burns a token on the external ledger. Minting authority is
/// deliberately separate from the admin, so the admin can hand it to an
/// automated process with `set_minter`.
pub struct TCane {
    /// The principal of the deployed instance itself, fixed at deployment.
    pub own: Principal,
    /// The persistent record, present exactly when `initialize` succeeded.
    pub state: Option<MinterState>,
}

impl TCane {
    /// This instance's own principal: the default minter at initialization.
    pub open spec fn spec_own(self) -> Principal {
        self.own
    }

    /// The record written by the one successful `initialize`, if any.
    pub open spec fn spec_state(self) -> Option<MinterState> {
        self.state
    }

    /// Whether `initialize` has ever succeeded on this instance.
    pub open spec fn is_initialized(self) -> bool {
        self.spec_state() is Some
    }

    /// The stored admin principal, if initialized.
    pub open spec fn spec_admin(self) -> Option<Principal> {
        match self.spec_state() {
            Some(c) => Some(c.admin),
            None => None,
        }
    }

    /// The stored token-ledger address, if initialized.
    pub open spec fn spec_token(self) -> Option<Principal> {
        match self.spec_state() {
            Some(c) => Some(c.token),
            None => None,
        }
    }

    /// The currently delegated minter, if initialized.
    pub open spec fn spec_minter(self) -> Option<Principal> {
        match self.spec_state() {
            Some(c) => Some(c.minter),
            None => None,
        }
    }

    /// A freshly deployed instance whose own principal is `own`.
    pub fn new(own: Principal) -> (t: TCane)
        ensures
            t.spec_own() == own,
            !t.is_initialized(),
    {
        TCane { own, state: None }
    }

    /// What `initialize` does: as for the other roles, but the minter
    /// defaults to this instance's own principal until `set_minter` changes
    /// it.
    pub open spec fn initialize_spec(
        self,
        auth: AuthContext,
        admin: Principal,
        token_address: Principal,
    ) -> (TCane, Result<(), Error>) {
        if self.is_initialized() {
            (self, Err(Error::Unauthorized))
        } else if !auth.grants(admin) {
            (self, Err(Error::Unauthorized))
        } else {
            (
                (TCane {
                    own: self.own,
                    state: Some(
                        MinterState { admin, token: token_address, minter: self.own },
                    ),
                }),
                Ok(()),
            )
        }
    }

    /// Records `admin` and `token_address` and makes this instance its own
    /// minter; may succeed exactly once per instance.
    pub fn initialize(
        &mut self,
        auth: &AuthContext,
        admin: Principal,
        token_address: Principal,
    ) -> (r: Result<(), Error>)
        ensures
            (*final(self), r) == old(self).initialize_spec(*auth, admin, token_address),
    {
        if self.state.is_some() {
            return Err(Error::Unauthorized);
        }
        if !auth.authorizes(admin) {
            return Err(Error::Unauthorized);
        }
        self.state = Some(MinterState { admin, token: token_address, minter: self.own });
        Ok(())
    }

    /// What `set_minter` does: gated on the stored admin, it overwrites the
    /// minter; it may be called any number of times, last write wins.
    pub open spec fn set_minter_spec(self, auth: AuthContext, minter: Principal) -> (
        TCane,
        Result<(), Error>,
    ) {
        match self.spec_state() {
            None => (self, Err(Error::NotInitialized)),
            Some(c) => if !auth.grants(c.admin) {
                (self, Err(Error::Unauthorized))
            } else {
                ((TCane { own: self.own, state: Some((MinterState { minter, ..c })) }), Ok(()))
            },
        }
    }

    /// Delegates the minter role to `minter`, gated on the stored admin.
    pub fn set_minter(&mut self, auth: &AuthContext, minter: Principal) -> (r: Result<(), Error>)
        ensures
            (*final(self), r) == old(self).set_minter_spec(*auth, minter),
    {
        let c = match self.state {
            Some(c) => c,
            None => {
                return Err(Error::NotInitialized);
            },
        };
        if !auth.authorizes(c.admin) {
            return Err(Error::Unauthorized);
        }
        self.state = Some(MinterState { admin: c.admin, token: c.token, minter });
        Ok(())
    }

    /// What `mint` does: a positive amount and proof of control for the
    /// stored minter — not the admin — buy one mint of `amount` to `to` on
    /// the stored ledger.
    pub open spec fn mint_spec(self, auth: AuthContext, to: Principal, amount: i128) -> Result<
        Seq<TokenOp>,
        Error,
    > {
        if amount <= 0 {
            Err(Error::InvalidAmount)
        } else {
            match self.spec_state() {
                None => Err(Error::NotInitialized),
                Some(c) => if !auth.grants(c.minter) {
                    Err(Error::Unauthorized)
                } else {
                    Ok(seq![(TokenOp::Mint { token: c.token, to, amount })])
                },
            }
        }
    }

    /// Mints `amount` new units to `to`, gated on the delegated minter.
    pub fn mint(&self, auth: &AuthContext, to: Principal, amount: i128) -> (r: Result<
        Vec<TokenOp>,
        Error,
    >)
        ensures
            ops_view(r) == self.mint_spec(*auth, to, amount),
    {
        if amount <= 0 {
            return Err(Error::InvalidAmount);
        }
        let c = match self.state {
            Some(c) => c,
            None => {
                return Err(Error::NotInitialized);
            },
        };
        if !auth.authorizes(c.minter) {
            return Err(Error::Unauthorized);
        }
        let mut ops: Vec<TokenOp> = Vec::new();
        ops.push(TokenOp::Mint { token: c.token, to, amount });
        Ok(ops)
    }

    /// What `burn` does: a positive amount and proof of control for the
    /// stored minter buy one burn of `amount` held by `from` on the stored
    /// ledger.
    pub open spec fn burn_spec(self, auth: AuthContext, from: Principal, amount: i128) -> Result<
        Seq<TokenOp>,
        Error,
    > {
        if amount <= 0 {
            Err(Error::InvalidAmount)
        } else {
            match self.spec_state() {
                None => Err(Error::NotInitialized),
                Some(c) => if !auth.grants(c.minter) {
                    Err(Error::Unauthorized)
                } else {
                    Ok(seq![(TokenOp::Burn { token: c.token, from, amount })])
                },
            }
        }
    }

    /// Burns `amount` units held by `from`, gated on the delegated minter.
    pub fn burn(&self, auth: &AuthContext, from: Principal, amount: i128) -> (r: Result<
        Vec<TokenOp>,
        Error,
    >)
        ensures
            ops_view(r) == self.burn_spec(*auth, from, amount),
    {
        if amount <= 0 {
            return Err(Error::InvalidAmount);
        }
        let c = match self.state {
            Some(c) => c,
            None => {
                return Err(Error::NotInitialized);
            },
        };
        if !auth.authorizes(c.minter) {
            return Err(Error::Unauthorized);
        }
        let mut ops: Vec<TokenOp> = Vec::new();
        ops.push(TokenOp::Burn { token: c.token, from, amount });
        Ok(ops)
    }
}

/// Initialization is one-shot and defaults the minter to the instance
/// itself: once `initialize` has succeeded, any further `initialize` fails
/// with `Unauthorized` and the stored identities stay what the first call
/// wrote.
pub proof fn lemma_credit_initialize_one_shot(
    t: TCane,
    auth1: AuthContext,
    admin1: Principal,
    token1: Principal,
    auth2: AuthContext,
    admin2: Principal,
    token2: Principal,
)
    requires
        t.initialize_spec(auth1, admin1, token1).1 is Ok,
    ensures
        ({
            let t1 = t.initialize_spec(auth1, admin1, token1).0;
            &&& t1.initialize_spec(auth2, admin2, token2) == (t1, Err::<(), Error>(
                Error::Unauthorized,
            ))
            &&& t1.spec_admin() == Some(admin1)
            &&& t1.spec_token() == Some(token1)
            &&& t1.spec_minter() == Some(t.spec_own())
        }),
{
}

/// Authorization enforcement: without proof of control for the stored
/// admin, `set_minter` fails with `Unauthorized` and the minter is
/// unchanged; without proof for the stored minter, `mint` and `burn` fail
/// with `Unauthorized` and issue no instruction.
pub proof fn lemma_credit_requires_authorization(
    t: TCane,
    auth: AuthContext,
    p: Principal,
    amount: i128,
)
    requires
        t.is_initialized(),
        amount > 0,
    ensures
        !auth.grants(t.spec_admin()->Some_0) ==> t.set_minter_spec(auth, p) == (t, Err::<
            (),
            Error,
        >(Error::Unauthorized)),
        !auth.grants(t.spec_minter()->Some_0) ==> t.mint_spec(auth, p, amount) == Err::<
            Seq<TokenOp>,
            Error,
        >(Error::Unauthorized),
        !auth.grants(t.spec_minter()->Some_0) ==> t.burn_spec(auth, p, amount) == Err::<
            Seq<TokenOp>,
            Error,
        >(Error::Unauthorized),
{
}

/// Positive-amount invariant: a zero or negative amount fails `mint` and
/// `burn` with `InvalidAmount` before anything else is even examined.
pub proof fn lemma_credit_rejects_nonpositive_amounts(
    t: TCane,
    auth: AuthContext,
    p: Principal,
    amount: i128,
)
    requires
        amount <= 0,
    ensures
        t.mint_spec(auth, p, amount) == Err::<Seq<TokenOp>, Error>(Error::InvalidAmount),
        t.burn_spec(auth, p, amount) == Err::<Seq<TokenOp>, Error>(Error::InvalidAmount),
{
}

/// Pre-initialization guard: on a fresh instance `set_minter`, `mint` and
/// `burn` fail with `NotInitialized` (for `mint` and `burn`, once the
/// amount has passed validation).
pub proof fn lemma_credit_fresh_instance_guard(
    t: TCane,
    auth: AuthContext,
    p: Principal,
    amount: i128,
)
    requires
        !t.is_initialized(),
        amount > 0,
    ensures
        t.set_minter_spec(auth, p) == (t, Err::<(), Error>(Error::NotInitialized)),
        t.mint_spec(auth, p, amount) == Err::<Seq<TokenOp>, Error>(Error::NotInitialized),
        t.burn_spec(auth, p, amount) == Err::<Seq<TokenOp>, Error>(Error::NotInitialized),
{
}

/// Minter delegation: after a successful `set_minter(new_minter)`, `mint`
/// and `burn` succeed exactly when the call proves control of the new
/// minter — proofs for the admin or for the previously delegated minter no
/// longer count (unless they happen to name the same principal) — while
/// admin, token and own principal are untouched.
pub proof fn lemma_minter_delegation(
    t: TCane,
    auth_admin: AuthContext,
    new_minter: Principal,
    auth_call: AuthContext,
    p: Principal,
    amount: i128,
)
    requires
        t.set_minter_spec(auth_admin, new_minter).1 is Ok,
        amount > 0,
    ensures
        ({
            let t1 = t.set_minter_spec(auth_admin, new_minter).0;
            &&& t1.spec_minter() == Some(new_minter)
            &&& t1.spec_admin() == t.spec_admin()
            &&& t1.spec_token() == t.spec_token()
            &&& t1.spec_own() == t.spec_own()
            &&& auth_call.grants(new_minter) ==> t1.mint_spec(auth_call, p, amount) == Ok::<
                Seq<TokenOp>,
                Error,
            >(seq![(TokenOp::Mint { token: t.spec_token()->Some_0, to: p, amount })])
            &&& auth_call.grants(new_minter) ==> t1.burn_spec(auth_call, p, amount) == Ok::<
                Seq<TokenOp>,
                Error,
            >(seq![(TokenOp::Burn { token: t.spec_token()->Some_0, from: p, amount })])
            &&& !auth_call.grants(new_minter) ==> t1.mint_spec(auth_call, p, amount) == Err::<
                Seq<TokenOp>,
                Error,
            >(Error::Unauthorized)
            &&& !auth_call.grants(new_minter) ==> t1.burn_spec(auth_call, p, amount) == Err::<
                Seq<TokenOp>,
                Error,
            >(Error::Unauthorized)
        }),
{
}

} // verus!
