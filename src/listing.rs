//! What the booking core reads of a listing (a hotel or a business) from
//! the catalog.

use vstd::prelude::*;
use vstd::string::StringExecFns;
use crate::money::Money;
use crate::text::same_text;

verus! {

/// Where a listing stands in the approval workflow.
#[derive(Debug, Clone, Copy, PartialEq, Eq, Structural)]
pub enum HotelStatus {
    Pending,
    Approved,
    Rejected,
}

/// The name under which a status is stored.
pub open spec fn status_name(s: HotelStatus) -> Seq<char> {
    match s {
        HotelStatus::Pending => "pending"@,
        HotelStatus::Approved => "approved"@,
        HotelStatus::Rejected => "rejected"@,
    }
}

/// A listing as the catalog reports it.
#[derive(Debug, Clone)]
pub struct ListingInfo {
    pub id: i32,
    pub owner_id: i32,
    pub name: String,
    pub price_per_night: Money,
    pub status: HotelStatus,
}

/// The reason an administrator gives for rejecting a listing.
#[derive(Debug, Clone)]
pub struct RejectReason {
    pub reason: String,
}

impl HotelStatus {
    /// The status stored under `name`; `None` for any other text.
    pub fn parse(name: &str) -> (r: Option<HotelStatus>)
        ensures
            r.is_some() <==> (name@ == "pending"@ || name@ == "approved"@ || name@
                == "rejected"@),
            r.is_some() ==> status_name(r.unwrap()) == name@,
    {
        if same_text(name, "pending") {
            Some(HotelStatus::Pending)
        } else if same_text(name, "approved") {
            Some(HotelStatus::Approved)
        } else if same_text(name, "rejected") {
            Some(HotelStatus::Rejected)
        } else {
            None
        }
    }

    /// The name under which the status is stored.
    pub fn name(&self) -> (r: String)
        ensures
            r@ == status_name(*self),
    {
        match self {
            HotelStatus::Pending => String::from_str("pending"),
            HotelStatus::Approved => String::from_str("approved"),
            HotelStatus::Rejected => String::from_str("rejected"),
        }
    }
}

impl ListingInfo {
    /// Whether customers may book the listing: only once it is approved.
    pub fn is_bookable(&self) -> (r: bool)
        ensures
            r == (self.status == HotelStatus::Approved),
    {
        self.status == HotelStatus::Approved
    }
}

} // verus!
