use vstd::prelude::*;

verus! {

/// An opaque, globally unique identifier for an account or contract that can
/// be the subject of an authorization check. Immutable once recorded.
#[derive(Clone, Copy, Debug, PartialEq, Eq, Structural)]
pub struct Principal {
    pub id: u64,
}

impl Principal {
    pub fn new(id: u64) -> (p: Principal)
        ensures
            p == (Principal { id }),
    {
        Principal { id }
    }
}

/// The authorization evidence carried by a single call: the set of principals
/// for which the caller has supplied a valid proof of control.
///
/// The host runtime's authorization primitive is modelled as this explicit
/// record; proofs are per call and carry no cross-call session state, so a
/// fresh `AuthContext` is built for every operation. An empty context models
/// a caller with no credentials at all.
pub struct AuthContext {
    granted: Vec<Principal>,
}

impl AuthContext {
    /// Whether this call proves control of `p`.
    pub closed spec fn grants(self, p: Principal) -> bool {
        self.granted@.contains(p)
    }

    /// A call carrying no proof of control for any principal.
    pub fn empty() -> (a: AuthContext)
        ensures
            forall|p: Principal| !a.grants(p),
    {
        AuthContext { granted: Vec::new() }
    }

    /// A call carrying exactly one proof of control.
    pub fn single(p: Principal) -> (a: AuthContext)
        ensures
            forall|q: Principal| a.grants(q) <==> q == p,
    {
        let mut granted: Vec<Principal> = Vec::new();
        granted.push(p);
        proof {
            broadcast use vstd::seq_lib::lemma_seq_contains_after_push;

            assert(granted@ == Seq::<Principal>::empty().push(p));
        }
        AuthContext { granted }
    }

    /// Extends this call's evidence with a proof of control for `p`.
    pub fn grant(&mut self, p: Principal)
        ensures
            forall|q: Principal| final(self).grants(q) <==> (old(self).grants(q) || q == p),
    {
        self.granted.push(p);
        proof {
            broadcast use vstd::seq_lib::lemma_seq_contains_after_push;

            assert(self.granted@ == old(self).granted@.push(p));
        }
    }

    /// Decides `self.grants(p)`: the authorization gate's check.
    pub fn authorizes(&self, p: Principal) -> (b: bool)
        ensures
            b == self.grants(p),
    {
        let mut i: usize = 0;
        while i < self.granted.len()
            invariant
                i <= self.granted@.len(),
                forall|j: int| 0 <= j < i ==> self.granted@[j] != p,
            decreases self.granted@.len() - i,
        {
            if self.granted[i] == p {
                return true;
            }
            i += 1;
        }
        false
    }
}

} // verus!
