use vstd::prelude::*;
use crate::auth::AuthContext;
use crate::contract::EscrowContract;
use crate::contract::create_post;
use crate::contract::refund_post;
use crate::contract::release_post;
use crate::contract::view_result;
use crate::errors::Error;
use crate::escrow::Escrow;
use crate::principal::Principal;

verus! {

/// Monotonic allocation: in a well-formed state the stored identifiers are
/// exactly the dense range `1..=count`, and every record carries its own
/// identifier — no gaps, no reuse. Together with `create_post`, which pins
/// each successful creation to identifier `count + 1`, creating `N` escrows
/// sequentially yields identifiers `1..=N` whatever buyer/seller pairs are
/// used.
pub proof fn lemma_monotonic_allocation(c: EscrowContract)
    requires
        c.wf(),
    ensures
        forall|id: u64| #[trigger] c.spec_get(id) is Some <==> 1 <= id <= c.count(),
        forall|id: u64| #[trigger] c.spec_get(id) matches Some(e) ==> e.escrow_id == id,
{
    assert forall|id: u64| #![trigger c.spec_get(id)] (c.spec_get(id) matches Some(e)
        ==> e.escrow_id == id) by {
        if 1 <= id && id <= c.store.records().len() {
            assert(c.store.records()[id - 1].escrow_id == id);
        }
    }
}

/// Round trip: viewing an identifier right after its successful creation
/// returns exactly the record that was created — the given buyer, seller and
/// amount, the new identifier, the creation timestamp, `Active` and nothing
/// else.
pub proof fn lemma_create_round_trip(
    pre: EscrowContract,
    post: EscrowContract,
    auth: AuthContext,
    buyer: Principal,
    seller: Principal,
    amount: i128,
    now: u64,
    id: u64,
)
    requires
        create_post(pre, post, auth, buyer, seller, amount, now, Ok(id)),
    ensures
        view_result(post, id) == Ok::<Escrow, Error>(
            Escrow::spec_new(id, buyer, seller, amount, now),
        ),
        view_result(post, id) matches Ok(e) ==> {
            &&& e.escrow_id == id
            &&& e.buyer == buyer
            &&& e.seller == seller
            &&& e.amount == amount
            &&& e.is_active
            &&& !e.is_released
            &&& !e.is_refunded
        },
{
}

/// Single terminal transition, against a further release: once a release has
/// succeeded, the record reads as `Released`, and a second release of the
/// same identifier fails — leaving the whole state unchanged — with
/// `InvalidState` whenever it carries the stored buyer's proof.
pub proof fn lemma_released_blocks_release(
    s0: EscrowContract,
    s1: EscrowContract,
    s2: EscrowContract,
    auth1: AuthContext,
    auth2: AuthContext,
    escrow_id: u64,
    r1: Result<(), Error>,
    r2: Result<(), Error>,
)
    requires
        release_post(s0, s1, auth1, escrow_id, r1),
        r1 is Ok,
        release_post(s1, s2, auth2, escrow_id, r2),
    ensures
        view_result(s1, escrow_id) matches Ok(e) && !e.is_active && e.is_released
            && !e.is_refunded,
        r2 is Err,
        s2 == s1,
        auth2.proves(s1.spec_get(escrow_id)->Some_0.buyer) ==> r2 == Err::<(), Error>(
            Error::InvalidState,
        ),
{
}

/// Single terminal transition, against a refund: after a successful release,
/// a refund of the same identifier fails for every caller — leaving the
/// whole state unchanged — with `InvalidState` whenever the caller is a
/// party to the escrow and proven.
pub proof fn lemma_released_blocks_refund(
    s0: EscrowContract,
    s1: EscrowContract,
    s2: EscrowContract,
    auth1: AuthContext,
    auth2: AuthContext,
    escrow_id: u64,
    caller: Principal,
    r1: Result<(), Error>,
    r2: Result<(), Error>,
)
    requires
        release_post(s0, s1, auth1, escrow_id, r1),
        r1 is Ok,
        refund_post(s1, s2, auth2, escrow_id, caller, r2),
    ensures
        r2 is Err,
        s2 == s1,
        ({
            let e = s1.spec_get(escrow_id)->Some_0;
            auth2.proves(caller) && (caller == e.buyer || caller == e.seller)
        }) ==> r2 == Err::<(), Error>(Error::InvalidState),
{
}

/// Symmetric refund: on an active escrow, a refund whose caller is the
/// stored seller and carries that seller's proof cannot fail, and the record
/// then reads as `Refunded`. (The same holds of the stored buyer, whose
/// membership in the permitted set is symmetric.)
pub proof fn lemma_seller_can_refund(
    pre: EscrowContract,
    post: EscrowContract,
    auth: AuthContext,
    escrow_id: u64,
    r: Result<(), Error>,
)
    requires
        pre.spec_get(escrow_id) matches Some(e) && e.is_active_state(),
        auth.proves(pre.spec_get(escrow_id)->Some_0.seller),
        refund_post(pre, post, auth, escrow_id, pre.spec_get(escrow_id)->Some_0.seller, r),
    ensures
        r is Ok,
        view_result(post, escrow_id) matches Ok(e) && e.is_refunded && !e.is_active
            && !e.is_released,
{
}

/// Authorization enforcement for release: without a verified proof from the
/// stored buyer — whoever else may have signed — a release fails
/// `Unauthorized` and the state is unchanged.
pub proof fn lemma_release_requires_buyer(
    pre: EscrowContract,
    post: EscrowContract,
    auth: AuthContext,
    escrow_id: u64,
    r: Result<(), Error>,
)
    requires
        pre.spec_get(escrow_id) matches Some(e) && !auth.proves(e.buyer),
        release_post(pre, post, auth, escrow_id, r),
    ensures
        r == Err::<(), Error>(Error::Unauthorized),
        post == pre,
{
}

/// Authorization enforcement for refund: a caller that is neither the stored
/// buyer nor the stored seller fails `Unauthorized` — even with a valid
/// proof of its own identity — and the state is unchanged.
pub proof fn lemma_refund_requires_party(
    pre: EscrowContract,
    post: EscrowContract,
    auth: AuthContext,
    escrow_id: u64,
    caller: Principal,
    r: Result<(), Error>,
)
    requires
        pre.spec_get(escrow_id) matches Some(e) && caller != e.buyer && caller != e.seller,
        refund_post(pre, post, auth, escrow_id, caller, r),
    ensures
        r == Err::<(), Error>(Error::Unauthorized),
        post == pre,
{
}

/// One step of the system: some public operation was invoked — with any
/// arguments, any authorization context, and whatever outcome — or none.
pub open spec fn steps_to(pre: EscrowContract, post: EscrowContract) -> bool {
    ||| (exists|
        auth: AuthContext,
        buyer: Principal,
        seller: Principal,
        amount: i128,
        now: u64,
        r: Result<u64, Error>,
    |
        #[trigger] create_post(pre, post, auth, buyer, seller, amount, now, r))
    ||| (exists|auth: AuthContext, escrow_id: u64, r: Result<(), Error>|
        #[trigger] release_post(pre, post, auth, escrow_id, r))
    ||| (exists|auth: AuthContext, escrow_id: u64, caller: Principal, r: Result<(), Error>|
        #[trigger] refund_post(pre, post, auth, escrow_id, caller, r))
    ||| post == pre
}

/// No revival of a terminal record: whatever operation runs next and
/// whatever it returns, a record that is `Released` or `Refunded` stays
/// exactly as it is. Together with the well-formedness every operation
/// ensures — exactly one lifecycle flag per record — no sequence of calls
/// can make an escrow satisfy two of the flags, nor bring it back from a
/// terminal state to `Active`.
pub proof fn lemma_no_revival(pre: EscrowContract, post: EscrowContract, id: u64)
    requires
        pre.wf(),
        steps_to(pre, post),
        pre.spec_get(id) matches Some(e) && e.is_terminal(),
    ensures
        post.spec_get(id) == pre.spec_get(id),
{
    if exists|
        auth: AuthContext,
        buyer: Principal,
        seller: Principal,
        amount: i128,
        now: u64,
        r: Result<u64, Error>,
    |
        #[trigger] create_post(pre, post, auth, buyer, seller, amount, now, r) {
        let (auth, buyer, seller, amount, now, r) = choose|
            auth: AuthContext,
            buyer: Principal,
            seller: Principal,
            amount: i128,
            now: u64,
            r: Result<u64, Error>,
        | create_post(pre, post, auth, buyer, seller, amount, now, r);
        match r {
            Ok(new_id) => {
                assert(id <= pre.store.records().len());
                assert(id != new_id);
            },
            Err(_) => {},
        }
    } else if exists|auth: AuthContext, escrow_id: u64, r: Result<(), Error>|
        #[trigger] release_post(pre, post, auth, escrow_id, r) {
        let (auth, escrow_id, r) = choose|auth: AuthContext, escrow_id: u64, r: Result<
            (),
            Error,
        >| release_post(pre, post, auth, escrow_id, r);
        match r {
            Ok(()) => {
                assert(escrow_id != id);
            },
            Err(_) => {},
        }
    } else if exists|auth: AuthContext, escrow_id: u64, caller: Principal, r: Result<(), Error>|
        #[trigger] refund_post(pre, post, auth, escrow_id, caller, r) {
        let (auth, escrow_id, caller, r) = choose|
            auth: AuthContext,
            escrow_id: u64,
            caller: Principal,
            r: Result<(), Error>,
        | refund_post(pre, post, auth, escrow_id, caller, r);
        match r {
            Ok(()) => {
                assert(escrow_id != id);
            },
            Err(_) => {},
        }
    }
}

/// Exactly one lifecycle flag: in a well-formed state every stored record is
/// `Active`, `Released` or `Refunded`, and only one of the three.
pub proof fn lemma_exactly_one_lifecycle_state(c: EscrowContract, id: u64)
    requires
        c.wf(),
        c.spec_get(id) is Some,
    ensures
        c.spec_get(id)->Some_0.one_lifecycle_state(),
{
    assert(c.store.records()[id - 1].one_lifecycle_state());
}

} // verus!
