//! The repository contract, held in memory: bookings keyed by an id that
//! the store assigns, with unique references and conditional cancellation.

use vstd::prelude::*;
use crate::booking::{
    authorize_listing_bookings, booking_wf, cancel_booking, cancel_outcome, check_cancel, create_booking, create_outcome,
    mark_cancelled, may_cancel, quote_booking, quote_outcome, request_total, Booking,
    BookingStatus, CreateBookingRequest,
};
use crate::error::{kind_of, AppError, ErrorKind};
use crate::listing::ListingInfo;
use crate::reference::{is_reference, ReferenceSearch, MAX_REFERENCE_ATTEMPTS};
use crate::roles::{UserInfo, UserRole};
use crate::text::same_text;
use vstd::string::StringExecFns;

verus! {

/// Bookings in the order they were stored; the booking with id `n` is the
/// `n`-th one.
pub struct BookingStore {
    bookings: Vec<Booking>,
}

impl View for BookingStore {
    type V = Seq<Booking>;

    closed spec fn view(&self) -> Seq<Booking> {
        self.bookings@
    }
}

/// No two bookings share a reference.
pub open spec fn unique_references(s: Seq<Booking>) -> bool {
    forall|i: int, j: int|
        0 <= i < s.len() && 0 <= j < s.len() && i != j ==> #[trigger] s[i].booking_reference@
            != #[trigger] s[j].booking_reference@
}

/// Whether some booking holds `reference`.
pub open spec fn reference_taken(s: Seq<Booking>, reference: Seq<char>) -> bool {
    exists|i: int| 0 <= i < s.len() && #[trigger] s[i].booking_reference@ == reference
}

/// The booking with id `id`, if there is one.
pub open spec fn lookup(s: Seq<Booking>, id: i32) -> Option<Booking> {
    if 1 <= id <= s.len() {
        Some(s[id - 1])
    } else {
        None
    }
}

/// `b` as stored under `id`.
pub open spec fn with_id(b: Booking, id: i32) -> Booking {
    Booking { id: id, ..b }
}

/// Whether the booking with id `id` is one of `user_id`'s.
pub open spec fn booked_by(s: Seq<Booking>, user_id: i32, id: i32) -> bool {
    1 <= id <= s.len() && s[id - 1].user_id == user_id
}

/// Whether the booking with id `id` is at listing `hotel_id`.
pub open spec fn booked_at(s: Seq<Booking>, hotel_id: i32, id: i32) -> bool {
    1 <= id <= s.len() && s[id - 1].hotel_id == hotel_id
}

/// Whether the booking with id `id` is the user's (`by_user`) or the
/// listing's with id `wanted`.
pub open spec fn picked(s: Seq<Booking>, by_user: bool, wanted: i32, id: i32) -> bool {
    if by_user {
        booked_by(s, wanted, id)
    } else {
        booked_at(s, wanted, id)
    }
}

/// What a listing of bookings orders by: the creation time (`by_created`)
/// or the check-in day.
pub open spec fn order_key(s: Seq<Booking>, id: i32, by_created: bool) -> int {
    if by_created {
        s[id - 1].created_at as int
    } else {
        s[id - 1].check_in.day_number as int
    }
}

/// `out` holds distinct ids, the greatest key first.
pub open spec fn ordered_ids(s: Seq<Booking>, out: Seq<i32>, by_created: bool) -> bool {
    forall|a: int, b: int|
        0 <= a < b < out.len() ==> out[a] != out[b] && order_key(s, out[a], by_created)
            >= order_key(s, out[b], by_created)
}

/// No stored reference has the shape of a drawn one, so no draw can be
/// taken.
pub open spec fn no_drawn_shape(s: Seq<Booking>) -> bool {
    forall|i: int| 0 <= i < s.len() ==> !is_reference(#[trigger] s[i].booking_reference@)
}

/// The rules every state of the store keeps: ids count up from 1, every
/// booking is well formed, and references are unique.
pub open spec fn store_wf(s: Seq<Booking>) -> bool {
    &&& s.len() < i32::MAX
    &&& forall|i: int| 0 <= i < s.len() ==> (#[trigger] s[i]).id == i + 1 && booking_wf(s[i])
    &&& unique_references(s)
}

impl BookingStore {
    /// Whether the store keeps its rules.
    pub open spec fn wf(&self) -> bool {
        store_wf(self@)
    }

    /// A store with no bookings.
    pub fn new() -> (r: BookingStore)
        ensures
            r@ == Seq::<Booking>::empty(),
            r.wf(),
    {
        BookingStore { bookings: Vec::new() }
    }

    /// How many bookings are stored.
    pub fn len(&self) -> (r: usize)
        ensures
            r == self@.len(),
    {
        self.bookings.len()
    }

    /// The booking with id `id`, if there is one.
    pub fn get(&self, id: i32) -> (r: Option<&Booking>)
        ensures
            match r {
                Some(b) => lookup(self@, id) == Some(*b),
                None => lookup(self@, id) is None,
            },
    {
        if id >= 1 && (id as usize) <= self.bookings.len() {
            Some(&self.bookings[(id - 1) as usize])
        } else {
            None
        }
    }

    /// Whether some stored booking holds `reference`.
    pub fn reference_exists(&self, reference: &str) -> (r: bool)
        ensures
            r == reference_taken(self@, reference@),
    {
        let mut i: usize = 0;
        while i < self.bookings.len()
            invariant
                i <= self@.len(),
                self@ == self.bookings@,
                forall|k: int| 0 <= k < i ==> self@[k].booking_reference@ != reference@,
            decreases self.bookings.len() - i,
        {
            if same_text(self.bookings[i].booking_reference.as_str(), reference) {
                return true;
            }
            i = i + 1;
        }
        false
    }

    /// Stores `booking` under the next id. A reference that is already
    /// stored is a Conflict (the uniqueness constraint), and a full store an
    /// internal error; either way nothing changes.
    pub fn insert(&mut self, booking: Booking) -> (r: Result<i32, AppError>)
        requires
            old(self).wf(),
            booking_wf(booking),
        ensures
            final(self).wf(),
            r is Ok <==> !reference_taken(old(self)@, booking.booking_reference@) && old(
                self,
            )@.len() + 1 < i32::MAX,
            r is Ok ==> r->Ok_0 == old(self)@.len() + 1 && final(self)@ == old(self)@.push(
                with_id(booking, r->Ok_0),
            ),
            r is Err ==> final(self)@ == old(self)@,
            r is Err ==> (r->Err_0 is Conflict <==> reference_taken(
                old(self)@,
                booking.booking_reference@,
            )),
            r is Err ==> (r->Err_0 is Conflict || r->Err_0 is InternalServerError),
    {
        if self.reference_exists(booking.booking_reference.as_str()) {
            return Err(AppError::Conflict(String::from_str("booking reference already in use")));
        }
        if self.bookings.len() >= (i32::MAX - 1) as usize {
            return Err(AppError::InternalServerError(String::from_str("booking store is full")));
        }
        let id = (self.bookings.len() + 1) as i32;
        let mut stored = booking;
        stored.id = id;
        let ghost s0 = self@;
        self.bookings.push(stored);
        proof {
            let s1 = self@;
            assert forall|i: int, j: int|
                0 <= i < s1.len() && 0 <= j < s1.len() && i != j implies #[trigger] s1[i].booking_reference@
                != #[trigger] s1[j].booking_reference@ by {
                if i == s0.len() as int {
                    assert(s1[j] == s0[j]);
                } else if j == s0.len() as int {
                    assert(s1[i] == s0[i]);
                } else {
                    assert(s1[i] == s0[i] && s1[j] == s0[j]);
                }
            };
        }
        Ok(id)
    }

    /// Cancel, as one conditional update: the booking with id `id` is
    /// cancelled by `principal` at `now` for `reason`, or, where Cancel
    /// refuses, nothing changes.
    pub fn cancel(
        &mut self,
        principal: &UserInfo,
        id: i32,
        reason: Option<String>,
        now: i64,
    ) -> (r: Result<(), AppError>)
        requires
            old(self).wf(),
        ensures
            final(self).wf(),
            lookup(old(self)@, id) is Some && may_cancel(*principal, lookup(old(self)@, id)->Some_0)
                && lookup(old(self)@, id)->Some_0.status == BookingStatus::Cancelled ==> r is Err
                && r->Err_0 is Conflict && final(self)@ == old(self)@,
            ({
                let o = cancel_outcome(*principal, lookup(old(self)@, id), reason, now);
                &&& r is Ok <==> o is Ok
                &&& r is Ok ==> final(self)@ == old(self)@.update(id - 1, o->Ok_0)
                &&& r is Err ==> kind_of(r->Err_0) == o->Err_0 && final(self)@ == old(self)@
            }),
    {
        if id < 1 || (id as usize) > self.bookings.len() {
            return cancel_booking(principal, None, reason, now).map(|_b: Booking| ());
        }
        let idx = (id - 1) as usize;
        match check_cancel(principal, &self.bookings[idx]) {
            Err(e) => Err(e),
            Ok(()) => {
                let ghost s0 = self@;
                let b = self.bookings.remove(idx);
                let c = mark_cancelled(b, reason, now);
                self.bookings.insert(idx, c);
                proof {
                    let s1 = self@;
                    assert(s1 =~= s0.update(idx as int, c));
                    assert forall|i: int, j: int|
                        0 <= i < s1.len() && 0 <= j < s1.len() && i != j implies #[trigger] s1[i].booking_reference@
                        != #[trigger] s1[j].booking_reference@ by {
                        assert(s1[i].booking_reference == s0[i].booking_reference);
                        assert(s1[j].booking_reference == s0[j].booking_reference);
                    };
                }
                Ok(())
            },
        }
    }

    /// The key of the booking with id `id`.
    fn key_at(&self, id: i32, by_created: bool) -> (r: i64)
        requires
            1 <= id <= self@.len(),
        ensures
            r == order_key(self@, id, by_created),
    {
        let b = &self.bookings[(id - 1) as usize];
        if by_created {
            b.created_at
        } else {
            b.check_in.day_number as i64
        }
    }

    /// Puts `id` into `out` where the order by key keeps.
    fn insert_ordered(&self, out: &mut Vec<i32>, id: i32, by_created: bool)
        requires
            1 <= id <= self@.len(),
            forall|k: int|
                0 <= k < old(out)@.len() ==> 1 <= #[trigger] old(out)@[k] <= self@.len() && old(
                    out,
                )@[k] != id,
            ordered_ids(self@, old(out)@, by_created),
        ensures
            ordered_ids(self@, final(out)@, by_created),
            forall|x: i32| final(out)@.contains(x) <==> (old(out)@.contains(x) || x == id),
            forall|k: int|
                0 <= k < final(out)@.len() ==> 1 <= #[trigger] final(out)@[k] <= self@.len(),
    {
        let key = self.key_at(id, by_created);
        let mut pos: usize = 0;
        while pos < out.len() && self.key_at(out[pos], by_created) >= key
            invariant
                pos <= out@.len(),
                out@ == old(out)@,
                forall|k: int| 0 <= k < out@.len() ==> 1 <= #[trigger] out@[k] <= self@.len(),
                forall|t: int| 0 <= t < pos ==> order_key(self@, #[trigger] out@[t], by_created) >= key,
            decreases out@.len() - pos,
        {
            pos = pos + 1;
        }
        let ghost before = out@;
        out.insert(pos, id);
        proof {
            before.insert_ensures(pos as int, id);
            assert forall|t: int| pos <= t < before.len() implies order_key(
                self@,
                #[trigger] before[t],
                by_created,
            ) < key by {
                if t > pos {
                    assert(order_key(self@, before[pos as int], by_created) >= order_key(
                        self@,
                        before[t],
                        by_created,
                    ));
                }
            };
            assert forall|k: int| 0 <= k < out@.len() implies 1 <= #[trigger] out@[k] <= self@.len() by {
                if k < pos {
                    assert(out@[k] == before[k]);
                } else if k > pos {
                    assert(out@[k] == before[k - 1]);
                }
            };
            assert forall|a: int, b: int| 0 <= a < b < out@.len() implies out@[a] != out@[b]
                && order_key(self@, out@[a], by_created) >= order_key(self@, out@[b], by_created) by {
                if a < pos {
                    assert(out@[a] == before[a]);
                } else if a > pos {
                    assert(out@[a] == before[a - 1]);
                }
                if b < pos {
                    assert(out@[b] == before[b]);
                } else if b > pos {
                    assert(out@[b] == before[b - 1]);
                }
            };
            assert forall|x: i32| out@.contains(x) <==> (before.contains(x) || x == id) by {
                if out@.contains(x) {
                    let k = choose|k: int| 0 <= k < out@.len() && out@[k] == x;
                    if k < pos {
                        assert(before[k] == x);
                    } else if k > pos {
                        assert(before[k - 1] == x);
                    }
                }
                if x == id {
                    assert(out@[pos as int] == x);
                } else if before.contains(x) {
                    let k = choose|k: int| 0 <= k < before.len() && before[k] == x;
                    if k < pos {
                        assert(out@[k] == x);
                    } else {
                        assert(out@[k + 1] == x);
                    }
                }
            };
        }
    }

    /// The ids of the bookings that `wanted` picks, latest key first.
    fn collect_ordered(&self, by_user: bool, wanted: i32, by_created: bool) -> (r: Vec<i32>)
        requires
            self.wf(),
        ensures
            forall|x: i32| r@.contains(x) <==> picked(self@, by_user, wanted, x),
            ordered_ids(self@, r@, by_created),
    {
        let mut out: Vec<i32> = Vec::new();
        let mut i: usize = 0;
        while i < self.bookings.len()
            invariant
                i <= self@.len() < i32::MAX,
                self@ == self.bookings@,
                forall|x: i32| out@.contains(x) <==> (picked(self@, by_user, wanted, x) && x <= i),
                forall|k: int| 0 <= k < out@.len() ==> 1 <= #[trigger] out@[k] <= i,
                ordered_ids(self@, out@, by_created),
            decreases self.bookings.len() - i,
        {
            let b = &self.bookings[i];
            let hit = if by_user {
                b.user_id == wanted
            } else {
                b.hotel_id == wanted
            };
            let id = (i + 1) as i32;
            if hit {
                let ghost before = out@;
                self.insert_ordered(&mut out, id, by_created);
                proof {
                    assert forall|k: int| 0 <= k < out@.len() implies 1 <= #[trigger] out@[k] <= i + 1 by {
                        assert(out@.contains(out@[k]));
                        if out@[k] != id {
                            assert(before.contains(out@[k]));
                        }
                    };
                }
            } else {
                proof {
                    assert(!picked(self@, by_user, wanted, id));
                }
            }
            i = i + 1;
        }
        out
    }

    /// ListMine: the ids of `user_id`'s bookings, newest first.
    pub fn bookings_of_user(&self, user_id: i32) -> (r: Vec<i32>)
        requires
            self.wf(),
        ensures
            forall|id: i32| r@.contains(id) <==> booked_by(self@, user_id, id),
            ordered_ids(self@, r@, true),
    {
        self.collect_ordered(true, user_id, true)
    }

    /// ListForListing: the ids of the bookings at listing `hotel_id`, latest
    /// check-in first, for its owner or an administrator; anyone else is
    /// Forbidden (`listing_owner` is `None` where the listing does not
    /// exist).
    pub fn bookings_of_listing(
        &self,
        principal: &UserInfo,
        hotel_id: i32,
        listing_owner: Option<i32>,
    ) -> (r: Result<Vec<i32>, AppError>)
        requires
            self.wf(),
        ensures
            r is Ok <==> (principal.role == UserRole::Admin || listing_owner == Some(principal.id)),
            r is Err ==> r->Err_0 is Forbidden,
            r is Ok ==> forall|id: i32| r->Ok_0@.contains(id) <==> booked_at(self@, hotel_id, id),
            r is Ok ==> ordered_ids(self@, r->Ok_0@, false),
    {
        match authorize_listing_bookings(principal, listing_owner) {
            Err(e) => {
                return Err(e);
            },
            Ok(()) => {},
        }
        Ok(self.collect_ordered(false, hotel_id, false))
    }

    /// A fresh reference that no stored booking holds, or Conflict once
    /// every attempt drew a taken one. Where no stored reference has the
    /// shape of a drawn one, the first draw is free and this succeeds.
    pub fn find_free_reference(&self) -> (r: Result<String, AppError>)
        ensures
            r is Ok ==> !reference_taken(self@, r->Ok_0@) && is_reference(r->Ok_0@),
            r is Err ==> r->Err_0 is Conflict,
            no_drawn_shape(self@) ==> r is Ok,
    {
        let mut search = ReferenceSearch::new();
        loop
            invariant
                search.attempts <= MAX_REFERENCE_ATTEMPTS,
                no_drawn_shape(self@) ==> search.attempts == 0,
            decreases MAX_REFERENCE_ATTEMPTS - search.attempts,
        {
            let candidate = match search.next_candidate() {
                Err(e) => {
                    return Err(e);
                },
                Ok(c) => c,
            };
            let ghost drawn = candidate@;
            let taken = self.reference_exists(candidate.as_str());
            proof {
                if no_drawn_shape(self@) && taken {
                    let i = choose|i: int| 0 <= i < self@.len() && #[trigger] self@[i].booking_reference@ == drawn;
                    assert(!is_reference(self@[i].booking_reference@));
                }
            }
            match search.settle(candidate, taken) {
                Err(e) => {
                    return Err(e);
                },
                Ok(Some(c)) => {
                    return Ok(c);
                },
                Ok(None) => {},
            }
        }
    }

    /// Create, end to end: checks and prices `req`, draws a free reference,
    /// and stores the booking. Where it fails nothing is stored.
    pub fn create(
        &mut self,
        principal: &UserInfo,
        req: CreateBookingRequest,
        listing: &Option<ListingInfo>,
        now: i64,
    ) -> (r: Result<i32, AppError>)
        requires
            old(self).wf(),
        ensures
            final(self).wf(),
            r is Err ==> final(self)@ == old(self)@,
            quote_outcome(req, *listing) is Err ==> r is Err && kind_of(r->Err_0) == quote_outcome(
                req,
                *listing,
            )->Err_0,
            req.check_out.day_number <= req.check_in.day_number ==> r is Err && r->Err_0 is BadRequest,
            quote_outcome(req, *listing) is Ok && no_drawn_shape(old(self)@) && old(self)@.len() + 1
                < i32::MAX ==> r is Ok,
            quote_outcome(req, *listing) is Ok && r is Err ==> (r->Err_0 is Conflict && !no_drawn_shape(
                old(self)@,
            )) || (r->Err_0 is InternalServerError && old(self)@.len() + 1 >= i32::MAX),
            r is Ok ==> ({
                let b = final(self)@.last();
                &&& r->Ok_0 == old(self)@.len() + 1
                &&& !reference_taken(old(self)@, b.booking_reference@)
                &&& b.total_price.cents == request_total(req, listing->Some_0)
                &&& final(self)@ == old(self)@.push(b)
                &&& is_reference(b.booking_reference@)
                &&& b == with_id(
                    create_outcome(*principal, req, *listing, b.booking_reference, now)->Ok_0,
                    r->Ok_0,
                )
            }),
    {
        match quote_booking(&req, listing) {
            Err(e) => {
                return Err(e);
            },
            Ok(_) => {},
        }
        let reference = match self.find_free_reference() {
            Ok(s) => s,
            Err(e) => {
                return Err(e);
            },
        };
        let ghost reference_view = reference;
        let booking = match create_booking(principal, req, listing, reference, now) {
            Ok(b) => b,
            Err(e) => {
                return Err(e);
            },
        };
        assert(booking.booking_reference == reference_view);
        self.insert(booking)
    }
}

/// However many bookings are created, through any interleaving of the
/// store's operations, no two stored bookings share a reference.
pub proof fn stored_references_are_unique(store: &BookingStore)
    requires
        store.wf(),
    ensures
        unique_references(store@),
{
}

} // verus!
