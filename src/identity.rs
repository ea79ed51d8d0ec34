//! The identity side that the booking core leans on: token claims, the
//! principal they stand for, and the checks of registration and login.

use vstd::prelude::*;
use vstd::string::{StrSliceExecFns, StringExecFns};
use crate::error::{message_of, AppError};
use crate::money::{all_digits, digits_number, number_text, parse_digits, push_number};
use crate::roles::{lowercase_of, role_for_name, role_name, UserInfo, UserRole};
use crate::text::{is_digit, push_char};

verus! {

/// How long a token stays valid, in seconds.
pub const TOKEN_LIFETIME_SECS: usize = 86400;

/// Fewest characters a password may have.
pub const MIN_PASSWORD_CHARS: usize = 6;

/// Most characters a first or last name may have.
pub const MAX_NAME_CHARS: usize = 100;

/// What a token says of its holder. `sub` is the user id in decimal; `exp`
/// and `iat` are seconds since the Unix epoch.
#[derive(Debug, Clone)]
pub struct Claims {
    pub sub: String,
    pub email: String,
    pub role: String,
    pub first_name: Option<String>,
    pub last_name: Option<String>,
    pub phone: Option<String>,
    pub exp: usize,
    pub iat: usize,
}

/// A request to open an account.
#[derive(Debug, Clone)]
pub struct RegisterUserRequest {
    pub email: String,
    pub password: String,
    pub first_name: String,
    pub last_name: String,
    pub phone: Option<String>,
    pub role: String,
}

/// An account ready to be stored, with its password hashed.
#[derive(Debug, Clone)]
pub struct NewUser {
    pub email: String,
    pub password_hash: String,
    pub first_name: String,
    pub last_name: String,
    pub phone: Option<String>,
    pub role: String,
}

/// A request to log in.
#[derive(Debug, Clone)]
pub struct LoginRequest {
    pub email: String,
    pub password: String,
}

/// An account as the store holds it.
#[derive(Debug, Clone)]
pub struct StoredUser {
    pub id: i32,
    pub email: String,
    pub password_hash: String,
    pub first_name: String,
    pub last_name: String,
    pub phone: Option<String>,
    pub role: String,
}

/// The answer to a successful login or registration.
#[derive(Debug, Clone)]
pub struct LoginResponse {
    pub token: String,
    pub user: UserInfo,
}

/// Decimal text of an integer, with a minus sign where it is negative.
pub open spec fn int_text(n: int) -> Seq<char> {
    if n < 0 {
        seq!['-'] + number_text((-n) as nat)
    } else {
        number_text(n as nat)
    }
}

/// The integer that decimal text with an optional sign stands for.
pub open spec fn signed_text_value(s: Seq<char>) -> Option<int> {
    let rest = s.subrange(1, s.len() as int);
    if s.len() >= 2 && s[0] == '-' && all_digits(rest) {
        Some(-digits_number(rest))
    } else if s.len() >= 2 && s[0] == '+' && all_digits(rest) {
        Some(digits_number(rest) as int)
    } else if s.len() >= 1 && all_digits(s) {
        Some(digits_number(s) as int)
    } else {
        None
    }
}

/// Whether `v` fits in an `i32`.
pub open spec fn fits_i32(v: int) -> bool {
    i32::MIN <= v <= i32::MAX
}

/// The text after `Bearer ` in an authorization header.
pub open spec fn bearer_part(header: Seq<char>) -> Option<Seq<char>> {
    if header.len() >= 7 && header.subrange(0, 7) == "Bearer "@ {
        Some(header.subrange(7, header.len() as int))
    } else {
        None
    }
}

/// Whether `email` is an address as the validator crate reads addresses.
pub uninterp spec fn email_accepted(email: Seq<char>) -> bool;

/// What bcrypt's `verify` says of `password` against `hash`: `None` where
/// the hash cannot be read.
pub uninterp spec fn bcrypt_verdict(password: Seq<char>, hash: Seq<char>) -> Option<bool>;

/// Why a registration is refused, given whether its email was accepted.
pub open spec fn registration_ok(req: RegisterUserRequest, email_ok: bool) -> bool {
    &&& email_ok
    &&& req.email@.len() > 0
    &&& req.password@.len() >= MIN_PASSWORD_CHARS
    &&& 1 <= req.first_name@.len() <= MAX_NAME_CHARS
    &&& 1 <= req.last_name@.len() <= MAX_NAME_CHARS
}

/// The principal a login yields for the stored account `u`.
pub open spec fn principal_of(u: StoredUser) -> UserInfo {
    UserInfo {
        id: u.id,
        email: u.email,
        role: role_for_name(lowercase_of(u.role@)),
        first_name: u.first_name,
        last_name: u.last_name,
        phone: u.phone,
    }
}

/// Relies on validator's `ValidateEmail::validate_email` for `str`; the
/// answer depends on the characters alone.
#[verifier::external_body]
fn email_is_valid(email: &str) -> (r: bool)
    ensures
        r == email_accepted(email@),
{
    validator::ValidateEmail::validate_email(&email)
}

/// Relies on `bcrypt::hash` at `bcrypt::DEFAULT_COST`, which salts at random
/// and fails only where the system gives no randomness; `bcrypt::verify`
/// recomputes a hash with its own cost and salt, so it accepts the password
/// against what `hash` made of it.
#[verifier::external_body]
fn bcrypt_hash(password: &str) -> (r: Option<String>)
    ensures
        r is Some ==> bcrypt_verdict(password@, r->Some_0@) == Some(true),
{
    match bcrypt::hash(password, bcrypt::DEFAULT_COST) {
        Ok(h) => Some(h),
        Err(_) => None,
    }
}

/// Relies on `bcrypt::verify`, whose verdict depends on the password and
/// the hash alone; an unreadable hash is an error, given here as `None`.
#[verifier::external_body]
fn bcrypt_verify(password: &str, hash: &str) -> (r: Option<bool>)
    ensures
        r == bcrypt_verdict(password@, hash@),
{
    match bcrypt::verify(password, hash) {
        Ok(v) => Some(v),
        Err(_) => None,
    }
}

/// Appends the decimal text of `n` to `out`.
fn push_int(out: &mut String, n: i32)
    ensures
        final(out)@ == old(out)@ + int_text(n as int),
{
    if n < 0 {
        push_char(out, '-');
        let magnitude: u64 = (0i64 - n as i64) as u64;
        push_number(out, magnitude);
        assert(final(out)@ =~= old(out)@ + int_text(n as int));
    } else {
        push_number(out, n as u64);
    }
}

/// Reads an `i32` written in decimal, with an optional sign.
pub fn parse_i32(s: &str) -> (r: Option<i32>)
    ensures
        r.is_some() <==> (signed_text_value(s@) is Some && fits_i32(
            signed_text_value(s@)->Some_0,
        )),
        r.is_some() ==> r.unwrap() == signed_text_value(s@)->Some_0,
{
    let n = s.unicode_len();
    if n == 0 {
        return None;
    }
    let first = s.get_char(0);
    let ghost v = s@;
    if n >= 2 && (first == '-' || first == '+') {
        let digits = parse_digits(s, 1, n);
        proof {
            assert(v.subrange(0, n as int) =~= v);
            assert(!is_digit(v[0]));
            assert(!all_digits(v));
        }
        match digits {
            Some(d) => {
                if first == '-' {
                    if d > 2147483648 {
                        return None;
                    }
                    Some((0i64 - d as i64) as i32)
                } else {
                    if d > 2147483647 {
                        return None;
                    }
                    Some(d as i32)
                }
            },
            None => {
                proof {
                    if all_digits(v.subrange(1, n as int)) {
                        assert(digits_number(v.subrange(1, n as int)) > u64::MAX);
                    }
                }
                None
            },
        }
    } else {
        let digits = parse_digits(s, 0, n);
        proof {
            assert(v.subrange(0, n as int) =~= v);
            if n >= 2 {
                assert(!is_digit(v[0]) ==> !all_digits(v));
            }
        }
        match digits {
            Some(d) => {
                if d > 2147483647 {
                    return None;
                }
                Some(d as i32)
            },
            None => None,
        }
    }
}

/// The token carried by an authorization header of the form
/// `Bearer <token>`.
pub fn bearer_token(header: &str) -> (r: Option<String>)
    ensures
        r.is_some() <==> bearer_part(header@) is Some,
        r.is_some() ==> r.unwrap()@ == bearer_part(header@)->Some_0,
{
    let n = header.unicode_len();
    if n < 7 {
        return None;
    }
    let prefix = header.substring_char(0, 7);
    if !crate::text::same_text(prefix, "Bearer ") {
        return None;
    }
    let token = header.substring_char(7, n);
    Some(String::from_str(token))
}

/// The claims of a token issued at `now` for a user, valid for
/// `TOKEN_LIFETIME_SECS`.
pub fn issue_claims(
    user_id: i32,
    email: &str,
    role: &str,
    first_name: Option<&str>,
    last_name: Option<&str>,
    phone: Option<&str>,
    now: usize,
) -> (r: Claims)
    requires
        now <= usize::MAX - TOKEN_LIFETIME_SECS,
    ensures
        r.sub@ == int_text(user_id as int),
        r.email@ == email@,
        r.role@ == role@,
        r.first_name.is_some() == first_name.is_some(),
        r.first_name.is_some() ==> r.first_name.unwrap()@ == first_name.unwrap()@,
        r.last_name.is_some() == last_name.is_some(),
        r.last_name.is_some() ==> r.last_name.unwrap()@ == last_name.unwrap()@,
        r.phone.is_some() == phone.is_some(),
        r.phone.is_some() ==> r.phone.unwrap()@ == phone.unwrap()@,
        r.iat == now,
        r.exp == now + TOKEN_LIFETIME_SECS,
{
    let mut sub = String::new();
    push_int(&mut sub, user_id);
    assert(sub@ =~= int_text(user_id as int));
    Claims {
        sub,
        email: String::from_str(email),
        role: String::from_str(role),
        first_name: match first_name {
            Some(s) => Some(String::from_str(s)),
            None => None,
        },
        last_name: match last_name {
            Some(s) => Some(String::from_str(s)),
            None => None,
        },
        phone: match phone {
            Some(s) => Some(String::from_str(s)),
            None => None,
        },
        exp: now + TOKEN_LIFETIME_SECS,
        iat: now,
    }
}

/// The principal that verified claims stand for, with the profile the
/// token carries (a name it lacks is empty). A `sub` that is no `i32` is
/// Unauthorized.
pub fn principal_from_claims(claims: Claims) -> (r: Result<UserInfo, AppError>)
    ensures
        r is Ok <==> (signed_text_value(claims.sub@) is Some && fits_i32(
            signed_text_value(claims.sub@)->Some_0,
        )),
        r is Ok ==> r->Ok_0.id == signed_text_value(claims.sub@)->Some_0,
        r is Ok ==> r->Ok_0.email == claims.email,
        r is Ok ==> r->Ok_0.role == role_for_name(lowercase_of(claims.role@)),
        r is Ok ==> r->Ok_0.phone == claims.phone,
        r is Ok ==> (claims.first_name is Some ==> r->Ok_0.first_name
            == claims.first_name->Some_0),
        r is Ok ==> (claims.first_name is None ==> r->Ok_0.first_name@ == Seq::<char>::empty()),
        r is Ok ==> (claims.last_name is Some ==> r->Ok_0.last_name
            == claims.last_name->Some_0),
        r is Ok ==> (claims.last_name is None ==> r->Ok_0.last_name@ == Seq::<char>::empty()),
        r is Err ==> r->Err_0 is Unauthorized,
{
    let id = match parse_i32(claims.sub.as_str()) {
        Some(id) => id,
        None => {
            return Err(AppError::Unauthorized(String::from_str("invalid user id in token")));
        },
    };
    let role = UserRole::from_string(claims.role.as_str());
    Ok(
        UserInfo {
            id,
            email: claims.email,
            role,
            first_name: match claims.first_name {
                Some(s) => s,
                None => String::new(),
            },
            last_name: match claims.last_name {
                Some(s) => s,
                None => String::new(),
            },
            phone: claims.phone,
        },
    )
}

/// The checks of a registration, given whether its email was accepted:
/// Bad Request unless the email is accepted and not empty, the password
/// has at least `MIN_PASSWORD_CHARS` characters, and both names have 1 to
/// `MAX_NAME_CHARS`.
pub fn check_registration(req: &RegisterUserRequest, email_ok: bool) -> (r: Result<(), AppError>)
    ensures
        r is Ok <==> registration_ok(*req, email_ok),
        r is Err ==> r->Err_0 is BadRequest,
{
    if !email_ok || req.email.as_str().unicode_len() == 0 {
        return Err(AppError::BadRequest(String::from_str("invalid email")));
    }
    if req.password.as_str().unicode_len() < MIN_PASSWORD_CHARS {
        return Err(AppError::BadRequest(String::from_str("password too short")));
    }
    let first = req.first_name.as_str().unicode_len();
    let last = req.last_name.as_str().unicode_len();
    if first < 1 || first > MAX_NAME_CHARS || last < 1 || last > MAX_NAME_CHARS {
        return Err(AppError::BadRequest(String::from_str("first and last name are required")));
    }
    Ok(())
}

/// The checks of a registration, the email read as the validator crate
/// reads addresses.
pub fn validate_registration(req: &RegisterUserRequest) -> (r: Result<(), AppError>)
    ensures
        r is Ok <==> registration_ok(*req, email_accepted(req.email@)),
        r is Err ==> r->Err_0 is BadRequest,
{
    let email_ok = email_is_valid(req.email.as_str());
    check_registration(req, email_ok)
}

/// Registration: the account to store for `req`, with the password hashed
/// and the role written in its stored form, or why it is refused.
pub fn prepare_registration(req: RegisterUserRequest) -> (r: Result<NewUser, AppError>)
    ensures
        !registration_ok(req, email_accepted(req.email@)) ==> r is Err && r->Err_0 is BadRequest,
        r is Ok ==> registration_ok(req, email_accepted(req.email@)),
        r is Ok ==> bcrypt_verdict(req.password@, r->Ok_0.password_hash@) == Some(true),
        r is Ok ==> r->Ok_0.email == req.email && r->Ok_0.first_name == req.first_name
            && r->Ok_0.last_name == req.last_name && r->Ok_0.phone == req.phone
            && r->Ok_0.role@ == role_name(role_for_name(lowercase_of(req.role@))),
        r is Err && registration_ok(req, email_accepted(req.email@)) ==> r->Err_0 is InternalServerError,
{
    match validate_registration(&req) {
        Err(e) => {
            return Err(e);
        },
        Ok(()) => {},
    }
    let password_hash = match bcrypt_hash(req.password.as_str()) {
        Some(h) => h,
        None => {
            return Err(AppError::InternalServerError(String::from_str("could not hash password")));
        },
    };
    let role = UserRole::from_string(req.role.as_str()).to_string();
    Ok(
        NewUser {
            email: req.email,
            password_hash,
            first_name: req.first_name,
            last_name: req.last_name,
            phone: req.phone,
            role,
        },
    )
}

/// What a login comes to, given the account found under its email and
/// bcrypt's verdict on its password: Unauthorized for an unknown account
/// or a wrong password, an internal error for an unreadable hash.
pub fn login_decision(account: Option<StoredUser>, verdict: Option<bool>) -> (r: Result<
    UserInfo,
    AppError,
>)
    ensures
        account is None ==> r is Err && r->Err_0 is Unauthorized && message_of(r->Err_0)
            == "invalid credentials"@,
        account is Some && verdict is None ==> r is Err && r->Err_0 is InternalServerError,
        account is Some && verdict == Some(false) ==> r is Err && r->Err_0 is Unauthorized
            && message_of(r->Err_0) == "invalid credentials"@,
        account is Some && verdict == Some(true) ==> r == Ok::<UserInfo, AppError>(
            principal_of(account->Some_0),
        ),
{
    match account {
        None => Err(AppError::Unauthorized(String::from_str("invalid credentials"))),
        Some(u) => match verdict {
            None => Err(AppError::InternalServerError(String::from_str("authentication error"))),
            Some(false) => Err(AppError::Unauthorized(String::from_str("invalid credentials"))),
            Some(true) => {
                let role = UserRole::from_string(u.role.as_str());
                Ok(
                    UserInfo {
                        id: u.id,
                        email: u.email,
                        role,
                        first_name: u.first_name,
                        last_name: u.last_name,
                        phone: u.phone,
                    },
                )
            },
        },
    }
}

/// The principal of the account a token names, read afresh from the
/// store (`None` where no account has that id, which is Unauthorized).
pub fn principal_from_record(record: Option<StoredUser>) -> (r: Result<UserInfo, AppError>)
    ensures
        record is None ==> r is Err && r->Err_0 is Unauthorized,
        record is Some ==> r == Ok::<UserInfo, AppError>(principal_of(record->Some_0)),
{
    match record {
        None => Err(AppError::Unauthorized(String::from_str("user not found"))),
        Some(u) => {
            let role = UserRole::from_string(u.role.as_str());
            Ok(
                UserInfo {
                    id: u.id,
                    email: u.email,
                    role,
                    first_name: u.first_name,
                    last_name: u.last_name,
                    phone: u.phone,
                },
            )
        },
    }
}

/// Login: Bad Request where the email or the password is empty; otherwise
/// the password is checked against the account found under the email.
pub fn check_login(req: &LoginRequest, account: Option<StoredUser>) -> (r: Result<
    UserInfo,
    AppError,
>)
    ensures
        (req.email@.len() == 0 || req.password@.len() == 0) ==> r is Err && r->Err_0 is BadRequest,
        req.email@.len() > 0 && req.password@.len() > 0 ==> (match account {
            None => r is Err && r->Err_0 is Unauthorized && message_of(r->Err_0)
                == "invalid credentials"@,
            Some(u) => match bcrypt_verdict(req.password@, u.password_hash@) {
                None => r is Err && r->Err_0 is InternalServerError,
                Some(false) => r is Err && r->Err_0 is Unauthorized && message_of(r->Err_0)
                    == "invalid credentials"@,
                Some(true) => r == Ok::<UserInfo, AppError>(principal_of(u)),
            },
        }),
{
    if req.email.as_str().unicode_len() == 0 || req.password.as_str().unicode_len() == 0 {
        return Err(AppError::BadRequest(String::from_str("email and password are required")));
    }
    let verdict = match &account {
        Some(u) => bcrypt_verify(req.password.as_str(), u.password_hash.as_str()),
        None => None,
    };
    login_decision(account, verdict)
}

} // verus!
