//! Properties that hold across the booking operations, proved from their
//! specifications.

use vstd::prelude::*;
use crate::booking::{
    cancel_outcome, cancelled_copy, create_outcome, may_cancel, Booking, BookingStatus,
    CreateBookingRequest,
};
use crate::error::ErrorKind;
use crate::listing::ListingInfo;
use crate::roles::{UserInfo, UserRole};

verus! {

/// A request whose check-out is not after its check-in is refused as a bad
/// request, whatever the listing, and so yields no booking to store.
pub proof fn check_out_not_after_check_in_is_refused(
    principal: UserInfo,
    req: CreateBookingRequest,
    listing: Option<ListingInfo>,
    reference: String,
    now: i64,
)
    requires
        req.check_out.day_number <= req.check_in.day_number,
    ensures
        create_outcome(principal, req, listing, reference, now) == Err::<Booking, ErrorKind>(
            ErrorKind::BadRequest,
        ),
{
}

/// Cancelling twice: the first cancellation marks the booking cancelled at
/// its time and for its reason; a second one, by the same principal and at
/// any time, is a conflict, so the first time and reason stay.
pub proof fn cancelling_twice_conflicts(
    principal: UserInfo,
    b: Booking,
    first_reason: Option<String>,
    first_time: i64,
    second_reason: Option<String>,
    second_time: i64,
)
    requires
        cancel_outcome(principal, Some(b), first_reason, first_time) is Ok,
    ensures
        ({
            let once = cancel_outcome(principal, Some(b), first_reason, first_time)->Ok_0;
            &&& once == cancelled_copy(b, first_reason, first_time)
            &&& once.status == BookingStatus::Cancelled
            &&& once.cancelled_at == Some(first_time)
            &&& once.cancellation_reason == first_reason
            &&& cancel_outcome(principal, Some(once), second_reason, second_time) == Err::<
                Booking,
                ErrorKind,
            >(ErrorKind::Conflict)
        }),
{
}

/// A customer may not cancel another customer's booking; an administrator
/// may cancel any booking that is not cancelled yet.
pub proof fn cancel_authority(
    principal: UserInfo,
    b: Booking,
    reason: Option<String>,
    now: i64,
)
    ensures
        principal.role != UserRole::Admin && b.user_id != principal.id ==> cancel_outcome(
            principal,
            Some(b),
            reason,
            now,
        ) == Err::<Booking, ErrorKind>(ErrorKind::Forbidden),
        principal.role == UserRole::Admin && b.status != BookingStatus::Cancelled
            ==> cancel_outcome(principal, Some(b), reason, now) == Ok::<Booking, ErrorKind>(
            cancelled_copy(b, reason, now),
        ),
        may_cancel(principal, b) <==> (principal.role == UserRole::Admin || b.user_id
            == principal.id),
{
}

} // verus!
