use maya_booking::booking::{
    authorize_listing_bookings, cancel_booking, create_booking, quote_booking, validate_request,
    Booking, BookingStatus, CreateBookingRequest, PaymentStatus,
};
use maya_booking::date::CalendarDate;
use maya_booking::error::{AppError, ErrorKind};
use maya_booking::listing::{HotelStatus, ListingInfo};
use maya_booking::money::Money;
use maya_booking::pricing::AddonService;
use maya_booking::reference::{reference_from_uuid_bytes, ReferenceSearch, MAX_REFERENCE_ATTEMPTS};
use maya_booking::roles::{UserInfo, UserRole};
use maya_booking::store::BookingStore;

fn user(id: i32, role: UserRole) -> UserInfo {
    UserInfo {
        id,
        email: format!("user{}@example.com", id),
        role,
        first_name: "Ana".to_string(),
        last_name: "Lopez".to_string(),
        phone: None,
    }
}

fn listing(id: i32, owner: i32, cents: u64, status: HotelStatus) -> ListingInfo {
    ListingInfo {
        id,
        owner_id: owner,
        name: "Hotel Maya".to_string(),
        price_per_night: Money::from_cents(cents),
        status,
    }
}

fn request(hotel_id: i32, from: (i32, u32, u32), to: (i32, u32, u32), rooms: i32) -> CreateBookingRequest {
    CreateBookingRequest {
        hotel_id,
        check_in: CalendarDate::from_ymd(from.0, from.1, from.2).unwrap(),
        check_out: CalendarDate::from_ymd(to.0, to.1, to.2).unwrap(),
        guests: 2,
        rooms,
        special_requests: None,
        addon_services: vec![AddonService::new(
            "breakfast".to_string(),
            Some(Money::from_cents(2000)),
        )],
    }
}

fn kind<T>(r: &Result<T, AppError>) -> Option<ErrorKind> {
    match r {
        Ok(_) => None,
        Err(e) => Some(e.kind()),
    }
}

fn made_booking(store: &mut BookingStore, owner: i32) -> i32 {
    let req = request(1, (2024, 6, 1), (2024, 6, 4), 2);
    let l = Some(listing(1, 99, 10000, HotelStatus::Approved));
    store.create(&user(owner, UserRole::Customer), req, &l, 1_700_000_000).unwrap()
}

#[test]
fn create_prices_and_marks_pending() {
    let req = request(1, (2024, 6, 1), (2024, 6, 4), 2);
    let l = Some(listing(1, 99, 10000, HotelStatus::Approved));
    let b = create_booking(&user(7, UserRole::Customer), req, &l, "MYABC123".to_string(), 42).unwrap();
    assert_eq!(b.total_price.cents, 62000);
    assert_eq!(b.status, BookingStatus::Pending);
    assert_eq!(b.payment_status, PaymentStatus::Pending);
    assert_eq!(b.user_id, 7);
    assert_eq!(b.hotel_id, 1);
    assert_eq!(b.booking_reference, "MYABC123");
    assert_eq!(b.created_at, 42);
    assert_eq!(b.updated_at, 42);
    assert!(b.cancelled_at.is_none());
    assert!(b.cancellation_reason.is_none());
}

#[test]
fn create_with_check_out_equal_to_check_in_is_refused() {
    let mut store = BookingStore::new();
    let req = request(1, (2024, 6, 1), (2024, 6, 1), 1);
    assert_eq!(kind(&validate_request(&req)), Some(ErrorKind::BadRequest));
    let l = Some(listing(1, 99, 10000, HotelStatus::Approved));
    let r = store.create(&user(7, UserRole::Customer), req, &l, 0);
    assert_eq!(kind(&r), Some(ErrorKind::BadRequest));
    assert_eq!(store.len(), 0);
}

#[test]
fn create_with_check_out_before_check_in_is_refused() {
    let req = request(1, (2024, 6, 5), (2024, 6, 1), 1);
    let r = create_booking(&user(7, UserRole::Customer), req, &None, "MY000000".to_string(), 0);
    assert_eq!(kind(&r), Some(ErrorKind::BadRequest));
}

#[test]
fn create_against_missing_listing_is_not_found() {
    let mut store = BookingStore::new();
    let req = request(404, (2024, 6, 1), (2024, 6, 3), 1);
    let r = store.create(&user(7, UserRole::Customer), req, &None, 0);
    assert_eq!(kind(&r), Some(ErrorKind::NotFound));
    assert_eq!(store.len(), 0);
}

#[test]
fn create_against_unapproved_or_other_listing_is_not_found() {
    let req = request(1, (2024, 6, 1), (2024, 6, 3), 1);
    let pending = Some(listing(1, 99, 10000, HotelStatus::Pending));
    assert_eq!(kind(&quote_booking(&req, &pending)), Some(ErrorKind::NotFound));
    let other = Some(listing(2, 99, 10000, HotelStatus::Approved));
    assert_eq!(kind(&quote_booking(&req, &other)), Some(ErrorKind::NotFound));
}

#[test]
fn guests_and_rooms_out_of_bounds_are_refused() {
    let mut req = request(1, (2024, 6, 1), (2024, 6, 3), 6);
    assert_eq!(kind(&validate_request(&req)), Some(ErrorKind::BadRequest));
    req.rooms = 0;
    assert_eq!(kind(&validate_request(&req)), Some(ErrorKind::BadRequest));
    req.rooms = 5;
    req.guests = 11;
    assert_eq!(kind(&validate_request(&req)), Some(ErrorKind::BadRequest));
    req.guests = 10;
    assert_eq!(validate_request(&req).unwrap(), 2);
}

#[test]
fn cancel_twice_conflicts_and_keeps_first_cancellation() {
    let mut store = BookingStore::new();
    for _ in 0..4 {
        made_booking(&mut store, 8);
    }
    let id = made_booking(&mut store, 7);
    assert_eq!(id, 5);
    let owner = user(7, UserRole::Customer);
    store.cancel(&owner, 5, Some("plans changed".to_string()), 100).unwrap();
    let b: &Booking = store.get(5).unwrap();
    assert_eq!(b.status, BookingStatus::Cancelled);
    assert_eq!(b.cancelled_at, Some(100));
    let again = store.cancel(&owner, 5, Some("again".to_string()), 200);
    assert_eq!(kind(&again), Some(ErrorKind::Conflict));
    let b = store.get(5).unwrap();
    assert_eq!(b.cancelled_at, Some(100));
    assert_eq!(b.cancellation_reason.as_deref(), Some("plans changed"));
    assert_eq!(b.updated_at, 100);
}

#[test]
fn customer_cannot_cancel_someone_elses_booking() {
    let mut store = BookingStore::new();
    let id = made_booking(&mut store, 7);
    let r = store.cancel(&user(8, UserRole::Customer), id, None, 5);
    assert_eq!(kind(&r), Some(ErrorKind::Forbidden));
    assert_eq!(store.get(id).unwrap().status, BookingStatus::Pending);
    let owner_of_hotel = store.cancel(&user(99, UserRole::HotelOwner), id, None, 5);
    assert_eq!(kind(&owner_of_hotel), Some(ErrorKind::Forbidden));
}

#[test]
fn admin_can_cancel_any_booking() {
    let mut store = BookingStore::new();
    let id = made_booking(&mut store, 7);
    store.cancel(&user(1, UserRole::Admin), id, None, 9).unwrap();
    assert_eq!(store.get(id).unwrap().status, BookingStatus::Cancelled);
}

#[test]
fn cancel_of_missing_booking_is_not_found() {
    let mut store = BookingStore::new();
    let r = store.cancel(&user(7, UserRole::Customer), 5, None, 0);
    assert_eq!(kind(&r), Some(ErrorKind::NotFound));
    let r = cancel_booking(&user(7, UserRole::Customer), None, None, 0);
    assert_eq!(kind(&r), Some(ErrorKind::NotFound));
}

#[test]
fn listing_bookings_need_owner_or_admin() {
    let stranger = user(5, UserRole::Customer);
    assert_eq!(
        kind(&authorize_listing_bookings(&stranger, Some(99))),
        Some(ErrorKind::Forbidden)
    );
    assert_eq!(kind(&authorize_listing_bookings(&stranger, None)), Some(ErrorKind::Forbidden));
    let other_owner = user(6, UserRole::HotelOwner);
    assert_eq!(
        kind(&authorize_listing_bookings(&other_owner, Some(99))),
        Some(ErrorKind::Forbidden)
    );
    assert!(authorize_listing_bookings(&user(99, UserRole::HotelOwner), Some(99)).is_ok());
    assert!(authorize_listing_bookings(&user(1, UserRole::Admin), Some(99)).is_ok());
}

#[test]
fn references_stay_unique_across_creations() {
    let mut store = BookingStore::new();
    for _ in 0..20 {
        made_booking(&mut store, 7);
    }
    let mut refs: Vec<String> = (1..=20).map(|i| store.get(i).unwrap().booking_reference.clone()).collect();
    for r in &refs {
        assert_eq!(r.len(), 8);
        assert!(r.starts_with("MY"));
        assert!(r[2..].chars().all(|c| c.is_ascii_digit() || ('A'..='F').contains(&c)));
    }
    refs.sort();
    refs.dedup();
    assert_eq!(refs.len(), 20);
}

#[test]
fn colliding_candidates_each_retry_once() {
    let mut store = BookingStore::new();
    let l = Some(listing(1, 99, 10000, HotelStatus::Approved));
    let req = request(1, (2024, 6, 1), (2024, 6, 2), 1);
    let first = create_booking(&user(7, UserRole::Customer), req, &l, "MY00000A".to_string(), 1).unwrap();
    store.insert(first).unwrap();

    // Two creations both draw the taken reference first, then a free one.
    let mut ids = Vec::new();
    for (n, fresh) in ["MY00000B", "MY00000C"].iter().enumerate() {
        let mut search = ReferenceSearch::new();
        search.next_candidate().unwrap();
        let clash = "MY00000A".to_string();
        let taken = store.reference_exists(&clash);
        assert!(taken);
        assert_eq!(search.settle(clash, taken).unwrap(), None);
        search.next_candidate().unwrap();
        let candidate = fresh.to_string();
        let taken = store.reference_exists(&candidate);
        let reference = search.settle(candidate, taken).unwrap().unwrap();
        let req = request(1, (2024, 6, 1), (2024, 6, 2), 1);
        let b = create_booking(&user(10 + n as i32, UserRole::Customer), req, &l, reference, 2).unwrap();
        ids.push(store.insert(b).unwrap());
        assert_eq!(search.attempts, 2);
    }
    assert_eq!(store.len(), 3);
    assert_eq!(store.get(ids[0]).unwrap().booking_reference, "MY00000B");
    assert_eq!(store.get(ids[1]).unwrap().booking_reference, "MY00000C");
}

#[test]
fn settle_gives_up_once_attempts_are_spent() {
    let mut search = ReferenceSearch::new();
    for _ in 0..MAX_REFERENCE_ATTEMPTS {
        search.next_candidate().unwrap();
    }
    let r = search.settle("MY123456".to_string(), true);
    assert_eq!(kind(&r), Some(ErrorKind::Conflict));
    assert_eq!(search.settle("MY123456".to_string(), false).unwrap().as_deref(), Some("MY123456"));
}

#[test]
fn create_on_empty_store_succeeds() {
    let mut store = BookingStore::new();
    let l = Some(listing(1, 99, 10000, HotelStatus::Approved));
    let id = store.create(&user(7, UserRole::Customer), request(1, (2024, 6, 1), (2024, 6, 4), 2), &l, 5).unwrap();
    assert_eq!(id, 1);
    assert_eq!(store.get(1).unwrap().total_price.cents, 62000);
    assert!(store.find_free_reference().is_ok());
}

#[test]
fn reference_search_gives_up_after_max_attempts() {
    let mut search = ReferenceSearch::new();
    for _ in 0..MAX_REFERENCE_ATTEMPTS {
        assert!(search.next_candidate().is_ok());
    }
    let r = search.next_candidate();
    assert_eq!(kind(&r), Some(ErrorKind::Conflict));
    assert_eq!(search.attempts, MAX_REFERENCE_ATTEMPTS);
}

#[test]
fn reference_from_bytes_is_upper_hex() {
    let bytes = vec![0xab, 0x01, 0xf9, 0x42, 0, 0, 0x40, 0, 0x80, 0, 0, 0, 0, 0, 0, 0];
    assert_eq!(reference_from_uuid_bytes(&bytes).unwrap(), "MYAB01F9");
    assert_eq!(reference_from_uuid_bytes(&vec![1, 2]), None);
}

#[test]
fn insert_refuses_a_taken_reference() {
    let mut store = BookingStore::new();
    let l = Some(listing(1, 99, 10000, HotelStatus::Approved));
    let a = create_booking(&user(7, UserRole::Customer), request(1, (2024, 6, 1), (2024, 6, 2), 1), &l, "MYFFFFFF".to_string(), 1).unwrap();
    let b = create_booking(&user(8, UserRole::Customer), request(1, (2024, 6, 1), (2024, 6, 2), 1), &l, "MYFFFFFF".to_string(), 1).unwrap();
    assert_eq!(store.insert(a).unwrap(), 1);
    assert!(store.reference_exists("MYFFFFFF"));
    assert_eq!(kind(&store.insert(b)), Some(ErrorKind::Conflict));
    assert_eq!(store.len(), 1);
}

#[test]
fn list_mine_gives_own_bookings_newest_first() {
    let mut store = BookingStore::new();
    let l = Some(listing(1, 99, 10000, HotelStatus::Approved));
    let times = [(7, 300), (8, 100), (7, 100), (7, 200)];
    for (owner, at) in times {
        let req = request(1, (2024, 6, 1), (2024, 6, 4), 1);
        store.create(&user(owner, UserRole::Customer), req, &l, at).unwrap();
    }
    assert_eq!(store.bookings_of_user(7), vec![1, 4, 3]);
    assert_eq!(store.bookings_of_user(8), vec![2]);
    assert!(store.bookings_of_user(9).is_empty());
}

#[test]
fn list_for_listing_orders_by_check_in_and_needs_owner() {
    let mut store = BookingStore::new();
    let l1 = Some(listing(1, 99, 10000, HotelStatus::Approved));
    let l2 = Some(listing(2, 50, 10000, HotelStatus::Approved));
    let guest = user(7, UserRole::Customer);
    store.create(&guest, request(1, (2024, 6, 10), (2024, 6, 12), 1), &l1, 0).unwrap();
    store.create(&guest, request(2, (2024, 6, 1), (2024, 6, 2), 1), &l2, 0).unwrap();
    store.create(&guest, request(1, (2024, 7, 1), (2024, 7, 3), 1), &l1, 0).unwrap();
    store.create(&guest, request(1, (2024, 5, 1), (2024, 5, 3), 1), &l1, 0).unwrap();
    let owner = user(99, UserRole::HotelOwner);
    assert_eq!(store.bookings_of_listing(&owner, 1, Some(99)).unwrap(), vec![3, 1, 4]);
    assert_eq!(
        store.bookings_of_listing(&user(1, UserRole::Admin), 2, Some(50)).unwrap(),
        vec![2]
    );
    let r = store.bookings_of_listing(&guest, 1, Some(99));
    assert_eq!(kind(&r), Some(ErrorKind::Forbidden));
}

#[test]
fn status_names_read_and_written() {
    assert_eq!(BookingStatus::parse("cancelled"), Some(BookingStatus::Cancelled));
    assert_eq!(BookingStatus::parse("confirmed"), Some(BookingStatus::Confirmed));
    assert_eq!(BookingStatus::parse("pending"), Some(BookingStatus::Pending));
    assert_eq!(BookingStatus::parse("done"), None);
    assert_eq!(BookingStatus::Cancelled.name(), "cancelled");
    assert_eq!(PaymentStatus::parse("paid"), Some(PaymentStatus::Paid));
    assert_eq!(PaymentStatus::parse("failed"), Some(PaymentStatus::Failed));
    assert_eq!(PaymentStatus::parse("refunded"), None);
    assert_eq!(PaymentStatus::Pending.name(), "pending");
}
