//! Who is acting: roles, the authenticated principal, and the rules on
//! what a role may reach.

use vstd::prelude::*;
use vstd::string::{StrSliceExecFns, StringExecFns};
use crate::error::AppError;
use crate::text::same_text;

verus! {

/// The role a user acts in.
#[derive(Debug, Clone, Copy, PartialEq, Eq, Structural)]
pub enum UserRole {
    Admin,
    HotelOwner,
    BusinessOwner,
    Customer,
}

/// The authenticated user behind a request.
#[derive(Debug, Clone)]
pub struct UserInfo {
    pub id: i32,
    pub email: String,
    pub role: UserRole,
    pub first_name: String,
    pub last_name: String,
    pub phone: Option<String>,
}

/// The lower-case form that `str::to_lowercase` gives of `s`.
pub uninterp spec fn lowercase_of(s: Seq<char>) -> Seq<char>;

/// Relies on `str::to_lowercase`: the result depends on the characters alone.
#[verifier::external_body]
fn lowercase(s: &str) -> (r: String)
    ensures
        r@ == lowercase_of(s@),
{
    s.to_lowercase()
}

/// The role that a lower-case role name stands for; unknown names stand for
/// a customer.
pub open spec fn role_for_name(name: Seq<char>) -> UserRole {
    if name == "admin"@ {
        UserRole::Admin
    } else if name == "hotelowner"@ || name == "hotel_owner"@ {
        UserRole::HotelOwner
    } else if name == "businessowner"@ || name == "business_owner"@ {
        UserRole::BusinessOwner
    } else {
        UserRole::Customer
    }
}

/// The name under which a role is stored.
pub open spec fn role_name(role: UserRole) -> Seq<char> {
    match role {
        UserRole::Admin => "admin"@,
        UserRole::HotelOwner => "hotelowner"@,
        UserRole::BusinessOwner => "businessowner"@,
        UserRole::Customer => "customer"@,
    }
}

/// Whether a user in `role` may act where `required` is asked for: an
/// administrator may act anywhere, anyone else only in their own role.
pub open spec fn role_allows(role: UserRole, required: UserRole) -> bool {
    role == UserRole::Admin || role == required
}

impl UserRole {
    /// The role named by `role`, ignoring case.
    pub fn from_string(role: &str) -> (r: UserRole)
        ensures
            r == role_for_name(lowercase_of(role@)),
    {
        let lower = lowercase(role);
        UserRole::from_lowercase(lower.as_str())
    }

    /// The role named by an already lower-case `name`.
    pub fn from_lowercase(name: &str) -> (r: UserRole)
        ensures
            r == role_for_name(name@),
    {
        if same_text(name, "admin") {
            UserRole::Admin
        } else if same_text(name, "hotelowner") || same_text(name, "hotel_owner") {
            UserRole::HotelOwner
        } else if same_text(name, "businessowner") || same_text(name, "business_owner") {
            UserRole::BusinessOwner
        } else {
            UserRole::Customer
        }
    }

    /// The name under which the role is stored.
    pub fn to_string(&self) -> (r: String)
        ensures
            r@ == role_name(*self),
    {
        match self {
            UserRole::Admin => String::from_str("admin"),
            UserRole::HotelOwner => String::from_str("hotelowner"),
            UserRole::BusinessOwner => String::from_str("businessowner"),
            UserRole::Customer => String::from_str("customer"),
        }
    }
}

/// Whether `user` may act where `required` is asked for.
pub fn has_role(user: &UserInfo, required: UserRole) -> (r: bool)
    ensures
        r == role_allows(user.role, required),
{
    match user.role {
        UserRole::Admin => true,
        _ => user.role == required,
    }
}

/// A check that lets through administrators and users in `required_role`.
pub fn require_role(required_role: UserRole) -> (r: impl Fn(&UserInfo) -> bool)
    ensures
        forall|u: &UserInfo| #[trigger] r.requires((u,)),
        forall|u: &UserInfo, b: bool|
            #[trigger] r.ensures((u,), b) ==> b == role_allows(u.role, required_role),
{
    move |user: &UserInfo| -> (b: bool)
        ensures
            b == role_allows(user.role, required_role),
        { has_role(user, required_role) }
}

/// Whether `user` may manage hotels at all: administrators and hotel owners
/// may, anyone else is Forbidden.
pub fn check_hotel_permissions(user: &UserInfo) -> (r: Result<(), AppError>)
    ensures
        r is Ok <==> (user.role == UserRole::Admin || user.role == UserRole::HotelOwner),
        r is Err ==> r->Err_0 is Forbidden,
{
    match user.role {
        UserRole::Admin | UserRole::HotelOwner => Ok(()),
        _ => Err(AppError::Forbidden(String::from_str("hotel owner or administrator required"))),
    }
}

/// Whether `principal` may manage the listing whose owner is `listing_owner`
/// (`None` where the listing does not exist): administrators always may,
/// anyone else only as the owner of an existing listing.
pub fn can_manage_listing(principal: &UserInfo, listing_owner: Option<i32>) -> (r: bool)
    ensures
        r == (principal.role == UserRole::Admin || listing_owner == Some(principal.id)),
{
    match principal.role {
        UserRole::Admin => true,
        _ => match listing_owner {
            Some(owner) => owner == principal.id,
            None => false,
        },
    }
}

} // verus!
