use escrow_contract::AuthContext;
use escrow_contract::Error;
use escrow_contract::EscrowContract;
use escrow_contract::Principal;

fn buyer() -> Principal {
    Principal::new(10)
}

fn seller() -> Principal {
    Principal::new(20)
}

fn outsider() -> Principal {
    Principal::new(30)
}

#[test]
fn monotonic_allocation() {
    let mut c = EscrowContract::new();
    let pairs = vec![
        (Principal::new(1), Principal::new(2)),
        (Principal::new(3), Principal::new(4)),
        (Principal::new(1), Principal::new(4)),
        (Principal::new(5), Principal::new(5)),
    ];
    for (n, (b, s)) in pairs.into_iter().enumerate() {
        let auth = AuthContext::single(b);
        let id = c.create_escrow(&auth, b, s, 100, 0).unwrap();
        assert_eq!(id, (n as u64) + 1);
    }
    assert_eq!(c.escrow_count(), 4);
    for id in 1..=4u64 {
        assert_eq!(c.view_escrow(id).unwrap().escrow_id, id);
    }
    assert_eq!(c.view_escrow(5), Err(Error::NotFound));
}

#[test]
fn create_then_view_round_trip() {
    let mut c = EscrowContract::new();
    let auth = AuthContext::single(buyer());
    let id = c.create_escrow(&auth, buyer(), seller(), 100, 1234).unwrap();
    let e = c.view_escrow(id).unwrap();
    assert_eq!(e.escrow_id, id);
    assert_eq!(e.buyer, buyer());
    assert_eq!(e.seller, seller());
    assert_eq!(e.amount, 100);
    assert!(e.is_active);
    assert!(!e.is_released);
    assert!(!e.is_refunded);
    assert_eq!(e.created_at, 1234);
}

#[test]
fn create_requires_buyer_proof() {
    let mut c = EscrowContract::new();
    let auth = AuthContext::single(seller());
    let r = c.create_escrow(&auth, buyer(), seller(), 100, 0);
    assert_eq!(r, Err(Error::Unauthorized));
    assert_eq!(c.escrow_count(), 0);
    assert_eq!(c.view_escrow(1), Err(Error::NotFound));
}

#[test]
fn create_keeps_permissive_inputs() {
    // Neither buyer != seller nor a non-negative amount is enforced.
    let mut c = EscrowContract::new();
    let auth = AuthContext::single(buyer());
    let id = c.create_escrow(&auth, buyer(), buyer(), -7, 0).unwrap();
    let e = c.view_escrow(id).unwrap();
    assert_eq!(e.buyer, e.seller);
    assert_eq!(e.amount, -7);
    assert!(e.is_active);
}

#[test]
fn release_then_view_and_no_second_transition() {
    let mut c = EscrowContract::new();
    let auth = AuthContext::single(buyer());
    let id = c.create_escrow(&auth, buyer(), seller(), 100, 0).unwrap();
    assert_eq!(c.release_funds(&auth, id), Ok(()));

    let e = c.view_escrow(id).unwrap();
    assert!(!e.is_active);
    assert!(e.is_released);
    assert!(!e.is_refunded);

    // A second release and a refund by anyone both fail InvalidState and
    // leave the record unchanged.
    assert_eq!(c.release_funds(&auth, id), Err(Error::InvalidState));
    let seller_auth = AuthContext::single(seller());
    assert_eq!(c.refund_escrow(&seller_auth, id, seller()), Err(Error::InvalidState));
    assert_eq!(c.view_escrow(id).unwrap(), e);
}

#[test]
fn refund_by_seller() {
    let mut c = EscrowContract::new();
    let auth = AuthContext::single(buyer());
    let id = c.create_escrow(&auth, buyer(), seller(), 100, 0).unwrap();
    let seller_auth = AuthContext::single(seller());
    assert_eq!(c.refund_escrow(&seller_auth, id, seller()), Ok(()));
    let e = c.view_escrow(id).unwrap();
    assert!(e.is_refunded);
    assert!(!e.is_active);
    assert!(!e.is_released);
}

#[test]
fn refund_by_buyer() {
    let mut c = EscrowContract::new();
    let auth = AuthContext::single(buyer());
    let id = c.create_escrow(&auth, buyer(), seller(), 100, 0).unwrap();
    assert_eq!(c.refund_escrow(&auth, id, buyer()), Ok(()));
    assert!(c.view_escrow(id).unwrap().is_refunded);
}

#[test]
fn refund_is_terminal_too() {
    let mut c = EscrowContract::new();
    let auth = AuthContext::single(buyer());
    let id = c.create_escrow(&auth, buyer(), seller(), 100, 0).unwrap();
    assert_eq!(c.refund_escrow(&auth, id, buyer()), Ok(()));
    assert_eq!(c.release_funds(&auth, id), Err(Error::InvalidState));
    assert_eq!(c.refund_escrow(&auth, id, buyer()), Err(Error::InvalidState));
    let e = c.view_escrow(id).unwrap();
    assert!(e.is_refunded && !e.is_active && !e.is_released);
}

#[test]
fn release_unauthorized_without_buyer_proof() {
    let mut c = EscrowContract::new();
    let auth = AuthContext::single(buyer());
    let id = c.create_escrow(&auth, buyer(), seller(), 100, 0).unwrap();
    let before = c.view_escrow(id).unwrap();

    // The seller's own proof does not release: only the stored buyer's does.
    let seller_auth = AuthContext::single(seller());
    assert_eq!(c.release_funds(&seller_auth, id), Err(Error::Unauthorized));
    // No proof at all fails the same way.
    assert_eq!(c.release_funds(&AuthContext::none(), id), Err(Error::Unauthorized));
    assert_eq!(c.view_escrow(id).unwrap(), before);
}

#[test]
fn refund_unauthorized_for_third_party() {
    let mut c = EscrowContract::new();
    let auth = AuthContext::single(buyer());
    let id = c.create_escrow(&auth, buyer(), seller(), 100, 0).unwrap();
    let before = c.view_escrow(id).unwrap();

    // A third party fails even with a valid proof of its own identity.
    let outsider_auth = AuthContext::single(outsider());
    assert_eq!(c.refund_escrow(&outsider_auth, id, outsider()), Err(Error::Unauthorized));
    // A party without its proof fails too.
    assert_eq!(c.refund_escrow(&AuthContext::none(), id, seller()), Err(Error::Unauthorized));
    assert_eq!(c.view_escrow(id).unwrap(), before);
    assert!(c.view_escrow(id).unwrap().is_active);
}

#[test]
fn view_unknown_identifier() {
    let c = EscrowContract::new();
    assert_eq!(c.view_escrow(999), Err(Error::NotFound));
}

#[test]
fn release_and_refund_unknown_identifier() {
    let mut c = EscrowContract::new();
    let auth = AuthContext::single(buyer());
    assert_eq!(c.release_funds(&auth, 999), Err(Error::NotFound));
    assert_eq!(c.refund_escrow(&auth, 999, buyer()), Err(Error::NotFound));
}

#[test]
fn from_parts_round_trip_and_validation() {
    let mut c = EscrowContract::new();
    let auth = AuthContext::single(buyer());
    let id1 = c.create_escrow(&auth, buyer(), seller(), 100, 5).unwrap();
    let id2 = c.create_escrow(&auth, buyer(), seller(), 200, 6).unwrap();
    c.release_funds(&auth, id1).unwrap();

    // Reload the state from its persisted plain parts.
    let records = vec![c.view_escrow(id1).unwrap(), c.view_escrow(id2).unwrap()];
    let reloaded = EscrowContract::from_parts(c.escrow_count(), records.clone()).unwrap();
    assert_eq!(reloaded.view_escrow(id1).unwrap(), c.view_escrow(id1).unwrap());
    assert_eq!(reloaded.view_escrow(id2).unwrap(), c.view_escrow(id2).unwrap());

    // A counter that does not match the records is rejected.
    assert!(EscrowContract::from_parts(3, records.clone()).is_none());
    // Records out of identifier order are rejected.
    let swapped = vec![records[1].clone(), records[0].clone()];
    assert!(EscrowContract::from_parts(2, swapped).is_none());
    // A record claiming two lifecycle states at once is rejected.
    let mut bad = records;
    bad[0].is_active = true;
    assert!(EscrowContract::from_parts(2, bad).is_none());
}
