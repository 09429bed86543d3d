use tool_rental::records::{Identity, RentalStatus, ToolRental};
use tool_rental::service::{RentalError, SharedEconomyToolRental};

fn ident(name: &str) -> Identity {
    Identity::new(String::from(name))
}

fn request(
    s: &mut SharedEconomyToolRental,
    renter: &str,
    owner: &str,
    tool: &str,
    price: u64,
    days: u64,
) -> Result<u64, RentalError> {
    s.request_rental(ident(renter), ident(owner), String::from(tool), price, days)
}

#[test]
fn valid_request_returns_nonzero_id_and_stores_requested() {
    let mut s = SharedEconomyToolRental::new();
    let id = request(&mut s, "alice", "bob", "drill", 10, 3).unwrap();
    assert_ne!(id, 0);
    let rec = s.get_rental(id);
    assert_eq!(rec.rental_id, id);
    assert_eq!(rec.rental_status, RentalStatus::Requested);
    assert_eq!(rec.price_per_day, 10);
    assert_eq!(rec.rental_duration, 3);
    assert_eq!(rec.renter, ident("alice"));
    assert_eq!(rec.owner, ident("bob"));
    assert_eq!(rec.tool_name, "drill");
}

#[test]
fn zero_price_aborts_and_persists_nothing() {
    let mut s = SharedEconomyToolRental::new();
    let r = request(&mut s, "alice", "bob", "drill", 0, 3);
    assert_eq!(r, Err(RentalError::InvalidParameters));
    // The id the call would have used still reads as the sentinel.
    let rec = s.get_rental(1);
    assert_eq!(rec.rental_id, 0);
    assert_eq!(rec.rental_status, RentalStatus::Cancelled);
}

#[test]
fn zero_duration_aborts_and_persists_nothing() {
    let mut s = SharedEconomyToolRental::new();
    let r = request(&mut s, "alice", "bob", "drill", 10, 0);
    assert_eq!(r, Err(RentalError::InvalidParameters));
    let rec = s.get_rental(1);
    assert_eq!(rec.rental_id, 0);
    assert_eq!(rec.rental_status, RentalStatus::Cancelled);
}

#[test]
fn zero_price_and_duration_aborts() {
    let mut s = SharedEconomyToolRental::new();
    let r = request(&mut s, "alice", "bob", "drill", 0, 0);
    assert_eq!(r, Err(RentalError::InvalidParameters));
}

#[test]
fn unknown_id_reads_as_sentinel() {
    let s = SharedEconomyToolRental::new();
    let rec = s.get_rental(77);
    assert_eq!(rec.rental_id, 0);
    assert_eq!(rec.tool_name, "");
    assert_eq!(rec.renter, Identity::placeholder());
    assert_eq!(rec.owner, Identity::placeholder());
    assert_eq!(rec.price_per_day, 0);
    assert_eq!(rec.rental_duration, 0);
    assert_eq!(rec.rental_status, RentalStatus::Cancelled);
}

#[test]
fn accept_on_unknown_id_hits_sentinel_and_fails() {
    let mut s = SharedEconomyToolRental::new();
    // The sentinel's owner is the placeholder, so a real caller never
    // matches it and the accept is refused.
    assert!(!s.accept_rental(ident("bob"), 42));
    let rec = s.get_rental(42);
    assert_eq!(rec.owner, Identity::placeholder());
    assert_eq!(rec.rental_status, RentalStatus::Cancelled);
}

#[test]
fn accept_by_wrong_owner_fails_and_leaves_status() {
    let mut s = SharedEconomyToolRental::new();
    let id = request(&mut s, "alice", "bob", "saw", 5, 2).unwrap();
    assert!(!s.accept_rental(ident("mallory"), id));
    assert_eq!(s.get_rental(id).rental_status, RentalStatus::Requested);
    // Even the renter, though authenticated, is not the owner.
    assert!(!s.accept_rental(ident("alice"), id));
    assert_eq!(s.get_rental(id).rental_status, RentalStatus::Requested);
}

#[test]
fn double_accept_succeeds_once() {
    let mut s = SharedEconomyToolRental::new();
    let id = request(&mut s, "alice", "bob", "saw", 5, 2).unwrap();
    assert!(s.accept_rental(ident("bob"), id));
    assert_eq!(s.get_rental(id).rental_status, RentalStatus::Accepted);
    assert!(!s.accept_rental(ident("bob"), id));
    assert_eq!(s.get_rental(id).rental_status, RentalStatus::Accepted);
}

#[test]
fn happy_path_ends_completed() {
    let mut s = SharedEconomyToolRental::new();
    let id = request(&mut s, "alice", "bob", "ladder", 7, 14).unwrap();
    assert!(s.accept_rental(ident("bob"), id));
    assert!(s.complete_rental(ident("alice"), id));
    let rec = s.get_rental(id);
    assert_eq!(rec.rental_status, RentalStatus::Completed);
    assert_eq!(rec.rental_id, id);
    assert_eq!(rec.renter, ident("alice"));
    assert_eq!(rec.owner, ident("bob"));
    assert_eq!(rec.price_per_day, 7);
    assert_eq!(rec.rental_duration, 14);
}

#[test]
fn complete_before_accept_fails() {
    let mut s = SharedEconomyToolRental::new();
    let id = request(&mut s, "alice", "bob", "ladder", 7, 14).unwrap();
    assert!(!s.complete_rental(ident("alice"), id));
    assert_eq!(s.get_rental(id).rental_status, RentalStatus::Requested);
}

#[test]
fn complete_by_wrong_renter_fails() {
    let mut s = SharedEconomyToolRental::new();
    let id = request(&mut s, "alice", "bob", "ladder", 7, 14).unwrap();
    assert!(s.accept_rental(ident("bob"), id));
    assert!(!s.complete_rental(ident("bob"), id));
    assert!(!s.complete_rental(ident("mallory"), id));
    assert_eq!(s.get_rental(id).rental_status, RentalStatus::Accepted);
}

#[test]
fn double_complete_succeeds_once() {
    let mut s = SharedEconomyToolRental::new();
    let id = request(&mut s, "alice", "bob", "ladder", 7, 14).unwrap();
    assert!(s.accept_rental(ident("bob"), id));
    assert!(s.complete_rental(ident("alice"), id));
    assert!(!s.complete_rental(ident("alice"), id));
    assert_eq!(s.get_rental(id).rental_status, RentalStatus::Completed);
}

#[test]
fn accept_after_complete_fails() {
    let mut s = SharedEconomyToolRental::new();
    let id = request(&mut s, "alice", "bob", "ladder", 7, 14).unwrap();
    assert!(s.accept_rental(ident("bob"), id));
    assert!(s.complete_rental(ident("alice"), id));
    assert!(!s.accept_rental(ident("bob"), id));
    assert_eq!(s.get_rental(id).rental_status, RentalStatus::Completed);
}

#[test]
fn repeated_get_returns_identical_records() {
    let mut s = SharedEconomyToolRental::new();
    let id = request(&mut s, "alice", "bob", "drill", 10, 3).unwrap();
    let first: ToolRental = s.get_rental(id);
    let second: ToolRental = s.get_rental(id);
    assert!(first == second);
    // The sentinel, too, reads back the same every time.
    let a = s.get_rental(999);
    let b = s.get_rental(999);
    assert!(a == b);
}

#[test]
fn ids_are_unique_and_records_independent() {
    let mut s = SharedEconomyToolRental::new();
    let id1 = request(&mut s, "alice", "bob", "drill", 10, 3).unwrap();
    let id2 = request(&mut s, "carol", "dave", "saw", 4, 9).unwrap();
    let id3 = request(&mut s, "alice", "dave", "drill", 2, 1).unwrap();
    assert_ne!(id1, id2);
    assert_ne!(id2, id3);
    assert_ne!(id1, id3);
    assert!(s.accept_rental(ident("dave"), id2));
    assert_eq!(s.get_rental(id1).rental_status, RentalStatus::Requested);
    assert_eq!(s.get_rental(id2).rental_status, RentalStatus::Accepted);
    assert_eq!(s.get_rental(id3).rental_status, RentalStatus::Requested);
    assert_eq!(s.get_rental(id1).tool_name, "drill");
    assert_eq!(s.get_rental(id2).renter, ident("carol"));
}

#[test]
fn failed_request_does_not_consume_an_id() {
    let mut s = SharedEconomyToolRental::new();
    let r = request(&mut s, "alice", "bob", "drill", 0, 3);
    assert_eq!(r, Err(RentalError::InvalidParameters));
    let id = request(&mut s, "alice", "bob", "drill", 10, 3).unwrap();
    assert_eq!(id, 1);
}
