use vstd::prelude::*;
use crate::auth::AuthContext;
use crate::errors::Error;
use crate::escrow::Escrow;
use crate::principal::Principal;
use crate::store::EscrowBook;
use crate::store::Store;
use crate::store::TTL_EXTEND_TO;
use crate::store::TTL_THRESHOLD;
use crate::store::parts_wf;

verus! {

/// The escrow lifecycle engine together with the state it acts on. The host
/// runtime loads this state object, invokes one public operation as a single
/// atomic unit of work, and persists the result; a failed operation leaves
/// the state observably unchanged.
pub struct EscrowContract {
    pub store: Store,
}

/// What `view_escrow` returns: the stored record, or `NotFound` for an
/// identifier that was never created.
pub open spec fn view_result(c: EscrowContract, escrow_id: u64) -> Result<Escrow, Error> {
    match c.spec_get(escrow_id) {
        Some(e) => Ok(e),
        None => Err(Error::NotFound),
    }
}

/// The exact outcome of `create_escrow`: it succeeds precisely when the call
/// carries the buyer's proof, allocates the next identifier, stores the
/// fresh `Active` record under it, touches nothing else, and extends the
/// TTL; without the buyer's proof it fails `Unauthorized` and changes
/// nothing.
pub open spec fn create_post(
    pre: EscrowContract,
    post: EscrowContract,
    auth: AuthContext,
    buyer: Principal,
    seller: Principal,
    amount: i128,
    now: u64,
    r: Result<u64, Error>,
) -> bool {
    match r {
        Ok(id) => {
            &&& auth.proves(buyer)
            &&& id == pre.count() + 1
            &&& post.count() == id
            &&& post.spec_get(id) == Some(Escrow::spec_new(id, buyer, seller, amount, now))
            &&& forall|j: u64| j != id ==> #[trigger] post.spec_get(j) == pre.spec_get(j)
            &&& post.ttl_requests() == pre.ttl_requests().push((TTL_THRESHOLD, TTL_EXTEND_TO))
        },
        Err(e) => {
            &&& e == Error::Unauthorized
            &&& !auth.proves(buyer)
            &&& post == pre
        },
    }
}

/// The exact outcome of `release_funds`: `NotFound` for an unknown
/// identifier, `Unauthorized` without the stored buyer's proof,
/// `InvalidState` on a record that is no longer `Active` — each leaving the
/// state unchanged — and otherwise the one-way flip to `Released`, persisted
/// with a TTL extension.
pub open spec fn release_post(
    pre: EscrowContract,
    post: EscrowContract,
    auth: AuthContext,
    escrow_id: u64,
    r: Result<(), Error>,
) -> bool {
    match r {
        Ok(()) => {
            &&& pre.spec_get(escrow_id) matches Some(e)
            &&& auth.proves(e.buyer)
            &&& e.is_active_state()
            &&& post.spec_get(escrow_id) == Some(e.spec_released())
            &&& forall|j: u64| j != escrow_id ==> #[trigger] post.spec_get(j) == pre.spec_get(j)
            &&& post.count() == pre.count()
            &&& post.ttl_requests() == pre.ttl_requests().push((TTL_THRESHOLD, TTL_EXTEND_TO))
        },
        Err(Error::NotFound) => {
            &&& pre.spec_get(escrow_id) is None
            &&& post == pre
        },
        Err(Error::Unauthorized) => {
            &&& pre.spec_get(escrow_id) matches Some(e)
            &&& !auth.proves(e.buyer)
            &&& post == pre
        },
        Err(Error::InvalidState) => {
            &&& pre.spec_get(escrow_id) matches Some(e)
            &&& auth.proves(e.buyer)
            &&& !e.is_active_state()
            &&& post == pre
        },
    }
}

/// The exact outcome of `refund_escrow`: `NotFound` for an unknown
/// identifier; `Unauthorized` unless the call carries `caller`'s proof and
/// `caller` is the stored buyer or seller; `InvalidState` on a record that
/// is no longer `Active` — each leaving the state unchanged — and otherwise
/// the one-way flip to `Refunded`, persisted with a TTL extension.
pub open spec fn refund_post(
    pre: EscrowContract,
    post: EscrowContract,
    auth: AuthContext,
    escrow_id: u64,
    caller: Principal,
    r: Result<(), Error>,
) -> bool {
    match r {
        Ok(()) => {
            &&& pre.spec_get(escrow_id) matches Some(e)
            &&& auth.proves(caller)
            &&& (caller == e.buyer || caller == e.seller)
            &&& e.is_active_state()
            &&& post.spec_get(escrow_id) == Some(e.spec_refunded())
            &&& forall|j: u64| j != escrow_id ==> #[trigger] post.spec_get(j) == pre.spec_get(j)
            &&& post.count() == pre.count()
            &&& post.ttl_requests() == pre.ttl_requests().push((TTL_THRESHOLD, TTL_EXTEND_TO))
        },
        Err(Error::NotFound) => {
            &&& pre.spec_get(escrow_id) is None
            &&& post == pre
        },
        Err(Error::Unauthorized) => {
            &&& pre.spec_get(escrow_id) matches Some(e)
            &&& !(auth.proves(caller) && (caller == e.buyer || caller == e.seller))
            &&& post == pre
        },
        Err(Error::InvalidState) => {
            &&& pre.spec_get(escrow_id) matches Some(e)
            &&& auth.proves(caller)
            &&& (caller == e.buyer || caller == e.seller)
            &&& !e.is_active_state()
            &&& post == pre
        },
    }
}

impl EscrowContract {
    /// Well-formedness: the store's records are dense from identifier 1,
    /// each in exactly one lifecycle state, and the counter matches.
    /// Established by the constructors, preserved by every operation.
    pub open spec fn wf(self) -> bool {
        self.store.wf()
    }

    /// The allocator counter: how many escrows were ever created.
    pub open spec fn count(self) -> u64 {
        self.store.count()
    }

    /// The record stored under `id`, if any.
    pub open spec fn spec_get(self, id: u64) -> Option<Escrow> {
        self.store.spec_get(id)
    }

    /// Every TTL-extension request made so far, oldest first.
    pub open spec fn ttl_requests(self) -> Seq<(u32, u32)> {
        self.store.ttl_requests()
    }

    /// A fresh system: no escrows, counter at 0.
    pub fn new() -> (c: EscrowContract)
        ensures
            c.wf(),
            c.count() == 0,
            forall|id: u64| c.spec_get(id) is None,
            c.ttl_requests().len() == 0,
    {
        EscrowContract { store: Store::new() }
    }

    /// Rebuild the state object from persisted plain values, checking the
    /// well-formedness invariant. Returns `None` exactly when the parts do
    /// not form a well-formed state; the host uses this to reload state it
    /// stored earlier.
    pub fn from_parts(counter: u64, escrows: Vec<Escrow>) -> (r: Option<EscrowContract>)
        ensures
            r is Some <==> parts_wf(counter, escrows@),
            r matches Some(c) ==> {
                &&& c.wf()
                &&& c.count() == counter
                &&& c.store.records() == escrows@
                &&& c.ttl_requests().len() == 0
            },
    {
        let n = escrows.len();
        if counter != n as u64 {
            return None;
        }
        let mut i: usize = 0;
        while i < n
            invariant
                n == escrows@.len(),
                0 <= i <= n,
                forall|k: int| 0 <= k < i ==> (#[trigger] escrows@[k]).escrow_id == k + 1,
                forall|k: int| 0 <= k < i ==> (#[trigger] escrows@[k]).one_lifecycle_state(),
            decreases n - i,
        {
            let e = escrows[i];
            let flags_ok = if e.is_active {
                !e.is_released && !e.is_refunded
            } else {
                e.is_released != e.is_refunded
            };
            if e.escrow_id != (i as u64) + 1 || !flags_ok {
                return None;
            }
            i += 1;
        }
        Some(EscrowContract { store: Store { counter, escrows, ttl_log: Ghost(Seq::empty()) } })
    }

    /// How many escrows were ever created; identifiers `1..=count` are
    /// exactly the ones in the store.
    pub fn escrow_count(&self) -> (n: u64)
        ensures
            n == self.count(),
    {
        self.store.counter
    }

    /// Creates a new escrow held between `buyer` and `seller` over `amount`,
    /// timestamped with the host-supplied `now`. Requires proof from the
    /// buyer; returns the unique escrow identifier.
    pub fn create_escrow(
        &mut self,
        auth: &AuthContext,
        buyer: Principal,
        seller: Principal,
        amount: i128,
        now: u64,
    ) -> (r: Result<u64, Error>)
        requires
            old(self).wf(),
            old(self).count() < u64::MAX,
        ensures
            final(self).wf(),
            create_post(*old(self), *final(self), *auth, buyer, seller, amount, now, r),
    {
        if let Err(e) = auth.require_auth(buyer) {
            return Err(e);
        }
        let escrow_id = self.store.next_id();
        let record = Escrow::new(escrow_id, buyer, seller, amount, now);
        self.store.put(EscrowBook::Escrow(escrow_id), record);
        self.store.extend_ttl(TTL_THRESHOLD, TTL_EXTEND_TO);
        Ok(escrow_id)
    }

    /// Releases the held funds to the seller: the one-way transition
    /// `Active -> Released`. Only the stored buyer may confirm satisfaction
    /// and release.
    pub fn release_funds(&mut self, auth: &AuthContext, escrow_id: u64) -> (r: Result<(), Error>)
        requires
            old(self).wf(),
        ensures
            final(self).wf(),
            release_post(*old(self), *final(self), *auth, escrow_id, r),
    {
        let escrow = match self.store.get(EscrowBook::Escrow(escrow_id)) {
            Some(e) => e,
            None => {
                return Err(Error::NotFound);
            },
        };
        if let Err(e) = auth.require_auth(escrow.buyer) {
            return Err(e);
        }
        if escrow.is_active && !escrow.is_released && !escrow.is_refunded {
            let updated = Escrow { is_active: false, is_released: true, ..escrow };
            self.store.put(EscrowBook::Escrow(escrow_id), updated);
            self.store.extend_ttl(TTL_THRESHOLD, TTL_EXTEND_TO);
            Ok(())
        } else {
            Err(Error::InvalidState)
        }
    }

    /// Refunds the held funds to the buyer: the one-way transition
    /// `Active -> Refunded`. Either party may trigger it, so the acting
    /// `caller` is an explicit argument, separately authorized and then
    /// checked against the stored buyer and seller.
    pub fn refund_escrow(
        &mut self,
        auth: &AuthContext,
        escrow_id: u64,
        caller: Principal,
    ) -> (r: Result<(), Error>)
        requires
            old(self).wf(),
        ensures
            final(self).wf(),
            refund_post(*old(self), *final(self), *auth, escrow_id, caller, r),
    {
        let escrow = match self.store.get(EscrowBook::Escrow(escrow_id)) {
            Some(e) => e,
            None => {
                return Err(Error::NotFound);
            },
        };
        if let Err(e) = auth.require_auth(caller) {
            return Err(e);
        }
        if caller != escrow.buyer && caller != escrow.seller {
            return Err(Error::Unauthorized);
        }
        if escrow.is_active && !escrow.is_released && !escrow.is_refunded {
            let updated = Escrow { is_active: false, is_refunded: true, ..escrow };
            self.store.put(EscrowBook::Escrow(escrow_id), updated);
            self.store.extend_ttl(TTL_THRESHOLD, TTL_EXTEND_TO);
            Ok(())
        } else {
            Err(Error::InvalidState)
        }
    }

    /// A pure read of the full escrow record; open to any caller, no
    /// authorization, no state transition, no TTL effect.
    pub fn view_escrow(&self, escrow_id: u64) -> (r: Result<Escrow, Error>)
        ensures
            r == view_result(*self, escrow_id),
    {
        match self.store.get(EscrowBook::Escrow(escrow_id)) {
            Some(e) => Ok(e),
            None => Err(Error::NotFound),
        }
    }
}

} // verus!
