//! The booking state machine: what Create makes of a request, what Cancel
//! makes of a booking, and who may see a listing's bookings.

use vstd::prelude::*;
use vstd::string::StringExecFns;
use crate::date::{nights_between, CalendarDate};
use crate::error::{agrees, AppError, ErrorKind};
use crate::listing::{HotelStatus, ListingInfo};
use crate::money::Money;
use crate::pricing::{compute_total, stay_total, AddonService};
use crate::roles::{can_manage_listing, UserInfo, UserRole};
use crate::text::same_text;

verus! {

/// Fewest guests a booking may hold.
pub const MIN_GUESTS: i32 = 1;

/// Most guests a booking may hold.
pub const MAX_GUESTS: i32 = 10;

/// Fewest rooms a booking may hold.
pub const MIN_ROOMS: i32 = 1;

/// Most rooms a booking may hold.
pub const MAX_ROOMS: i32 = 5;

/// Where a booking stands. Cancelled is final.
#[derive(Debug, Clone, Copy, PartialEq, Eq, Structural)]
pub enum BookingStatus {
    Confirmed,
    Cancelled,
    Pending,
}

/// Where the payment of a booking stands, set by the payment side.
#[derive(Debug, Clone, Copy, PartialEq, Eq, Structural)]
pub enum PaymentStatus {
    Pending,
    Paid,
    Failed,
}

/// The name under which a booking status is stored.
pub open spec fn booking_status_name(s: BookingStatus) -> Seq<char> {
    match s {
        BookingStatus::Confirmed => "confirmed"@,
        BookingStatus::Cancelled => "cancelled"@,
        BookingStatus::Pending => "pending"@,
    }
}

/// The name under which a payment status is stored.
pub open spec fn payment_status_name(s: PaymentStatus) -> Seq<char> {
    match s {
        PaymentStatus::Pending => "pending"@,
        PaymentStatus::Paid => "paid"@,
        PaymentStatus::Failed => "failed"@,
    }
}

impl BookingStatus {
    /// The status stored under `name`; `None` for any other text.
    pub fn parse(name: &str) -> (r: Option<BookingStatus>)
        ensures
            r.is_some() <==> (name@ == "confirmed"@ || name@ == "cancelled"@ || name@
                == "pending"@),
            r.is_some() ==> booking_status_name(r.unwrap()) == name@,
    {
        if same_text(name, "confirmed") {
            Some(BookingStatus::Confirmed)
        } else if same_text(name, "cancelled") {
            Some(BookingStatus::Cancelled)
        } else if same_text(name, "pending") {
            Some(BookingStatus::Pending)
        } else {
            None
        }
    }

    /// The name under which the status is stored.
    pub fn name(&self) -> (r: String)
        ensures
            r@ == booking_status_name(*self),
    {
        match self {
            BookingStatus::Confirmed => String::from_str("confirmed"),
            BookingStatus::Cancelled => String::from_str("cancelled"),
            BookingStatus::Pending => String::from_str("pending"),
        }
    }
}

impl PaymentStatus {
    /// The status stored under `name`; `None` for any other text.
    pub fn parse(name: &str) -> (r: Option<PaymentStatus>)
        ensures
            r.is_some() <==> (name@ == "pending"@ || name@ == "paid"@ || name@ == "failed"@),
            r.is_some() ==> payment_status_name(r.unwrap()) == name@,
    {
        if same_text(name, "pending") {
            Some(PaymentStatus::Pending)
        } else if same_text(name, "paid") {
            Some(PaymentStatus::Paid)
        } else if same_text(name, "failed") {
            Some(PaymentStatus::Failed)
        } else {
            None
        }
    }

    /// The name under which the status is stored.
    pub fn name(&self) -> (r: String)
        ensures
            r@ == payment_status_name(*self),
    {
        match self {
            PaymentStatus::Pending => String::from_str("pending"),
            PaymentStatus::Paid => String::from_str("paid"),
            PaymentStatus::Failed => String::from_str("failed"),
        }
    }
}

/// What a customer asks for when booking a listing.
#[derive(Debug, Clone)]
pub struct CreateBookingRequest {
    pub hotel_id: i32,
    pub check_in: CalendarDate,
    pub check_out: CalendarDate,
    pub guests: i32,
    pub rooms: i32,
    pub special_requests: Option<String>,
    pub addon_services: Vec<AddonService>,
}

/// A booking. `id` is 0 until the store assigns one; times are seconds
/// since the Unix epoch.
#[derive(Debug, Clone)]
pub struct Booking {
    pub id: i32,
    pub booking_reference: String,
    pub user_id: i32,
    pub hotel_id: i32,
    pub check_in: CalendarDate,
    pub check_out: CalendarDate,
    pub guests: i32,
    pub rooms: i32,
    pub total_price: Money,
    pub addon_services: Vec<AddonService>,
    pub special_requests: Option<String>,
    pub status: BookingStatus,
    pub payment_status: PaymentStatus,
    pub created_at: i64,
    pub updated_at: i64,
    pub cancelled_at: Option<i64>,
    pub cancellation_reason: Option<String>,
}

/// Whether the guests, rooms and dates of a request are acceptable.
pub open spec fn stay_is_valid(req: CreateBookingRequest) -> bool {
    &&& MIN_GUESTS <= req.guests <= MAX_GUESTS
    &&& MIN_ROOMS <= req.rooms <= MAX_ROOMS
    &&& req.check_out.day_number > req.check_in.day_number
}

/// Nights of the stay asked for.
pub open spec fn stay_nights(req: CreateBookingRequest) -> int {
    req.check_out.day_number - req.check_in.day_number
}

/// Whether `listing` is the listing asked for and may be booked.
pub open spec fn listing_bookable(req: CreateBookingRequest, listing: Option<ListingInfo>) -> bool {
    &&& listing is Some
    &&& listing->0.id == req.hotel_id
    &&& listing->0.status == HotelStatus::Approved
}

/// The price of the stay asked for at the listing's nightly price.
pub open spec fn request_total(req: CreateBookingRequest, listing: ListingInfo) -> nat {
    stay_total(
        listing.price_per_night.cents as nat,
        stay_nights(req) as nat,
        req.rooms as nat,
        req.addon_services@,
    )
}

/// The total that Create charges for `req` at `listing`, or why it refuses.
pub open spec fn quote_outcome(req: CreateBookingRequest, listing: Option<ListingInfo>) -> Result<
    Money,
    ErrorKind,
> {
    if !stay_is_valid(req) {
        Err(ErrorKind::BadRequest)
    } else if !listing_bookable(req, listing) {
        Err(ErrorKind::NotFound)
    } else if request_total(req, listing->0) > u64::MAX {
        Err(ErrorKind::InternalServerError)
    } else {
        Ok(Money { cents: request_total(req, listing->0) as u64 })
    }
}

/// The booking that Create makes of `req` for `principal`, before the store
/// gives it an id.
pub open spec fn new_booking(
    principal: UserInfo,
    req: CreateBookingRequest,
    total: Money,
    reference: String,
    now: i64,
) -> Booking {
    Booking {
        id: 0,
        booking_reference: reference,
        user_id: principal.id,
        hotel_id: req.hotel_id,
        check_in: req.check_in,
        check_out: req.check_out,
        guests: req.guests,
        rooms: req.rooms,
        total_price: total,
        addon_services: req.addon_services,
        special_requests: req.special_requests,
        status: BookingStatus::Pending,
        payment_status: PaymentStatus::Pending,
        created_at: now,
        updated_at: now,
        cancelled_at: None,
        cancellation_reason: None,
    }
}

/// What Create makes of `req`, or why it refuses.
pub open spec fn create_outcome(
    principal: UserInfo,
    req: CreateBookingRequest,
    listing: Option<ListingInfo>,
    reference: String,
    now: i64,
) -> Result<Booking, ErrorKind> {
    match quote_outcome(req, listing) {
        Ok(total) => Ok(new_booking(principal, req, total, reference, now)),
        Err(k) => Err(k),
    }
}

/// Whether `principal` may cancel `b`: its customer may, and so may an
/// administrator.
pub open spec fn may_cancel(principal: UserInfo, b: Booking) -> bool {
    principal.role == UserRole::Admin || b.user_id == principal.id
}

/// `b` after a cancellation at `now` for `reason`.
pub open spec fn cancelled_copy(b: Booking, reason: Option<String>, now: i64) -> Booking {
    Booking {
        status: BookingStatus::Cancelled,
        cancelled_at: Some(now),
        cancellation_reason: reason,
        updated_at: now,
        ..b
    }
}

/// Why `principal` may not cancel `b`, if they may not.
pub open spec fn cancel_check_outcome(principal: UserInfo, b: Booking) -> Result<(), ErrorKind> {
    if !may_cancel(principal, b) {
        Err(ErrorKind::Forbidden)
    } else if b.status == BookingStatus::Cancelled {
        Err(ErrorKind::Conflict)
    } else {
        Ok(())
    }
}

/// What Cancel makes of `booking` (`None` where there is no such booking),
/// or why it refuses.
pub open spec fn cancel_outcome(
    principal: UserInfo,
    booking: Option<Booking>,
    reason: Option<String>,
    now: i64,
) -> Result<Booking, ErrorKind> {
    match booking {
        None => Err(ErrorKind::NotFound),
        Some(b) => match cancel_check_outcome(principal, b) {
            Ok(_) => Ok(cancelled_copy(b, reason, now)),
            Err(k) => Err(k),
        },
    }
}

/// Whether a booking keeps the rules that hold of every stored booking.
pub open spec fn booking_wf(b: Booking) -> bool {
    &&& b.check_out.day_number > b.check_in.day_number
    &&& MIN_GUESTS <= b.guests <= MAX_GUESTS
    &&& MIN_ROOMS <= b.rooms <= MAX_ROOMS
    &&& (b.status == BookingStatus::Cancelled <==> b.cancelled_at is Some)
    &&& b.total_price.cents >= crate::pricing::addon_sum(b.addon_services@)
}

/// Checks the guests, rooms and dates of a request, and gives the nights of
/// the stay.
pub fn validate_request(req: &CreateBookingRequest) -> (r: Result<u64, AppError>)
    ensures
        r is Ok <==> stay_is_valid(*req),
        r is Ok ==> r->Ok_0 == stay_nights(*req),
        r is Err ==> r->Err_0 is BadRequest,
{
    if req.guests < MIN_GUESTS || req.guests > MAX_GUESTS {
        return Err(AppError::BadRequest(String::from_str("guests must be between 1 and 10")));
    }
    if req.rooms < MIN_ROOMS || req.rooms > MAX_ROOMS {
        return Err(AppError::BadRequest(String::from_str("rooms must be between 1 and 5")));
    }
    match nights_between(req.check_in, req.check_out) {
        Some(n) => Ok(n),
        None => Err(
            AppError::BadRequest(String::from_str("check-out must come after check-in")),
        ),
    }
}

/// The total that Create charges for `req` at `listing` (`None` where the
/// catalog has no such listing), or why it refuses: a bad request first,
/// then a listing that is missing or not approved.
pub fn quote_booking(req: &CreateBookingRequest, listing: &Option<ListingInfo>) -> (r: Result<
    Money,
    AppError,
>)
    ensures
        agrees(r, quote_outcome(*req, *listing)),
{
    let nights = match validate_request(req) {
        Ok(n) => n,
        Err(e) => {
            return Err(e);
        },
    };
    let info = match listing {
        Some(l) => l,
        None => {
            return Err(AppError::NotFound(String::from_str("listing not found or not available")));
        },
    };
    if info.id != req.hotel_id || !info.is_bookable() {
        return Err(AppError::NotFound(String::from_str("listing not found or not available")));
    }
    match compute_total(info.price_per_night, nights, req.rooms as u64, &req.addon_services) {
        Some(total) => Ok(total),
        None => Err(AppError::InternalServerError(String::from_str("total price out of range"))),
    }
}

/// Create: the booking that `principal` makes with `req` at `listing`
/// under `reference` at time `now`, pending and unpaid, or why it is
/// refused. Nothing is stored here: the caller stores what comes back.
pub fn create_booking(
    principal: &UserInfo,
    req: CreateBookingRequest,
    listing: &Option<ListingInfo>,
    reference: String,
    now: i64,
) -> (r: Result<Booking, AppError>)
    ensures
        agrees(r, create_outcome(*principal, req, *listing, reference, now)),
        r is Ok ==> booking_wf(r->Ok_0),
{
    let total = match quote_booking(&req, listing) {
        Ok(t) => t,
        Err(e) => {
            return Err(e);
        },
    };
    Ok(
        Booking {
            id: 0,
            booking_reference: reference,
            user_id: principal.id,
            hotel_id: req.hotel_id,
            check_in: req.check_in,
            check_out: req.check_out,
            guests: req.guests,
            rooms: req.rooms,
            total_price: total,
            addon_services: req.addon_services,
            special_requests: req.special_requests,
            status: BookingStatus::Pending,
            payment_status: PaymentStatus::Pending,
            created_at: now,
            updated_at: now,
            cancelled_at: None,
            cancellation_reason: None,
        },
    )
}

/// Why `principal` may not cancel `b`: Forbidden for someone else's
/// booking, unless an administrator asks; Conflict once it is cancelled.
pub fn check_cancel(principal: &UserInfo, b: &Booking) -> (r: Result<(), AppError>)
    ensures
        agrees(r, cancel_check_outcome(*principal, *b)),
{
    if principal.role != UserRole::Admin && b.user_id != principal.id {
        return Err(AppError::Forbidden(String::from_str("not allowed to cancel this booking")));
    }
    if b.status == BookingStatus::Cancelled {
        return Err(AppError::Conflict(String::from_str("booking already cancelled")));
    }
    Ok(())
}

/// `b` cancelled at `now` for `reason`.
pub fn mark_cancelled(b: Booking, reason: Option<String>, now: i64) -> (r: Booking)
    ensures
        r == cancelled_copy(b, reason, now),
{
    let mut c = b;
    c.status = BookingStatus::Cancelled;
    c.cancelled_at = Some(now);
    c.cancellation_reason = reason;
    c.updated_at = now;
    c
}

/// Cancel: `booking` (`None` where there is no such booking) after
/// `principal` cancels it at `now` for `reason`, or why it is refused.
pub fn cancel_booking(
    principal: &UserInfo,
    booking: Option<Booking>,
    reason: Option<String>,
    now: i64,
) -> (r: Result<Booking, AppError>)
    ensures
        agrees(r, cancel_outcome(*principal, booking, reason, now)),
{
    match booking {
        None => Err(AppError::NotFound(String::from_str("booking not found"))),
        Some(b) => match check_cancel(principal, &b) {
            Ok(()) => Ok(mark_cancelled(b, reason, now)),
            Err(e) => Err(e),
        },
    }
}

/// ListForListing's guard: only the listing's owner or an administrator may
/// see its bookings; anyone else is refused with Forbidden, whether or not
/// the listing exists (`listing_owner` is `None` where it does not).
pub fn authorize_listing_bookings(principal: &UserInfo, listing_owner: Option<i32>) -> (r: Result<
    (),
    AppError,
>)
    ensures
        r is Ok <==> (principal.role == UserRole::Admin || listing_owner == Some(principal.id)),
        r is Err ==> r->Err_0 is Forbidden,
{
    if can_manage_listing(principal, listing_owner) {
        Ok(())
    } else {
        Err(AppError::Forbidden(String::from_str("not allowed to see this listing's bookings")))
    }
}

} // verus!
