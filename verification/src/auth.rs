use vstd::prelude::*;
use crate::errors::Error;
use crate::principal::Principal;

verus! {

/// The authorization gate's view of one invocation: the set of principals
/// for which the host runtime has verified a cryptographic proof that they
/// authorized this call. The host builds one per call and hands it in; the
/// library never widens it.
pub struct AuthContext {
    pub signers: Vec<Principal>,
}

impl AuthContext {
    /// Whether this invocation carries a verified proof from `p`.
    pub open spec fn proves(self, p: Principal) -> bool {
        self.signers@.contains(p)
    }

    /// An invocation carrying no proof at all.
    pub fn none() -> (a: AuthContext)
        ensures
            forall|p: Principal| !a.proves(p),
    {
        AuthContext { signers: Vec::new() }
    }

    /// An invocation carrying exactly one verified proof, from `p`.
    pub fn single(p: Principal) -> (a: AuthContext)
        ensures
            forall|q: Principal| a.proves(q) <==> q == p,
    {
        let mut signers: Vec<Principal> = Vec::new();
        signers.push(p);
        let a = AuthContext { signers };
        proof {
            assert forall|q: Principal| a.proves(q) <==> q == p by {
                if q == p {
                    assert(a.signers@[0] == p);
                }
            }
        }
        a
    }

    /// Fails with `Unauthorized` unless the invoking context carries a
    /// verified proof that `p` authorized this call.
    pub fn require_auth(&self, p: Principal) -> (r: Result<(), Error>)
        ensures
            r is Ok <==> self.proves(p),
            r is Err ==> r == Err::<(), Error>(Error::Unauthorized),
    {
        let n = self.signers.len();
        let mut i: usize = 0;
        while i < n
            invariant
                n == self.signers@.len(),
                0 <= i <= n,
                forall|j: int| 0 <= j < i ==> self.signers@[j] != p,
            decreases n - i,
        {
            if self.signers[i] == p {
                assert(self.proves(p));
                return Ok(());
            }
            i += 1;
        }
        Err(Error::Unauthorized)
    }
}

} // verus!
