use vstd::prelude::*;
use crate::principal::Principal;

verus! {

/// One held conditional payment between a buyer and a seller: the sole
/// persisted entity. Its three booleans encode a three-state machine whose
/// well-formed values set exactly one of them.
#[derive(Clone, Copy, Debug, PartialEq, Eq, Structural)]
pub struct Escrow {
    /// Unique, assigned by the allocator in call order, never reused.
    pub escrow_id: u64,
    /// The party funding the escrow; only it may release.
    pub buyer: Principal,
    /// The party the funds are destined for.
    pub seller: Principal,
    /// The recorded amount. Neither non-negativity nor `buyer != seller` is
    /// enforced at creation: the permissive behaviour is kept deliberately.
    pub amount: i128,
    pub is_active: bool,
    pub is_released: bool,
    pub is_refunded: bool,
    /// Timestamp captured once at creation, immutable thereafter.
    pub created_at: u64,
}

impl Escrow {
    /// Exactly one lifecycle state holds: `Active`, `Released` or `Refunded`.
    pub open spec fn one_lifecycle_state(self) -> bool {
        ||| (self.is_active && !self.is_released && !self.is_refunded)
        ||| (!self.is_active && self.is_released && !self.is_refunded)
        ||| (!self.is_active && !self.is_released && self.is_refunded)
    }

    /// The precondition both release and refund check before mutating.
    pub open spec fn is_active_state(self) -> bool {
        self.is_active && !self.is_released && !self.is_refunded
    }

    /// `Released` and `Refunded` are terminal: no further mutation.
    pub open spec fn is_terminal(self) -> bool {
        self.is_released || self.is_refunded
    }

    /// The record a creation stores: freshly `Active`, all fields as given.
    pub open spec fn spec_new(
        escrow_id: u64,
        buyer: Principal,
        seller: Principal,
        amount: i128,
        created_at: u64,
    ) -> Escrow {
        Escrow {
            escrow_id,
            buyer,
            seller,
            amount,
            is_active: true,
            is_released: false,
            is_refunded: false,
            created_at,
        }
    }

    pub fn new(
        escrow_id: u64,
        buyer: Principal,
        seller: Principal,
        amount: i128,
        created_at: u64,
    ) -> (e: Escrow)
        ensures
            e == Escrow::spec_new(escrow_id, buyer, seller, amount, created_at),
    {
        Escrow {
            escrow_id,
            buyer,
            seller,
            amount,
            is_active: true,
            is_released: false,
            is_refunded: false,
            created_at,
        }
    }

    /// The record after a release: the one-way `Active -> Released` flip.
    pub open spec fn spec_released(self) -> Escrow {
        Escrow { is_active: false, is_released: true, ..self }
    }

    /// The record after a refund: the one-way `Active -> Refunded` flip.
    pub open spec fn spec_refunded(self) -> Escrow {
        Escrow { is_active: false, is_refunded: true, ..self }
    }
}

} // verus!
