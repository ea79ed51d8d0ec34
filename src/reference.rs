//! Booking references: `MY` and six upper-case hexadecimal digits taken from
//! a random UUID, drawn again on a collision a bounded number of times.

use vstd::prelude::*;
use vstd::string::StringExecFns;
use crate::error::AppError;
use crate::text::push_char;

verus! {

/// How many candidates one search may draw before it gives up.
pub const MAX_REFERENCE_ATTEMPTS: u32 = 10;

/// The upper-case hexadecimal digit for a value below sixteen.
pub open spec fn hex_upper(n: int) -> char {
    if n < 10 {
        (('0' as int) + n) as char
    } else {
        (('A' as int) + n - 10) as char
    }
}

/// Whether `c` is an upper-case hexadecimal digit.
pub open spec fn is_hex_upper(c: char) -> bool {
    ('0' <= c && c <= '9') || ('A' <= c && c <= 'F')
}

/// Both hexadecimal digits of a byte, the high one first.
pub open spec fn byte_hex(b: u8) -> Seq<char> {
    seq![hex_upper((b / 16) as int), hex_upper((b % 16) as int)]
}

/// The reference made from the first three bytes of a UUID.
pub open spec fn reference_text(bytes: Seq<u8>) -> Seq<char> {
    "MY"@ + byte_hex(bytes[0]) + byte_hex(bytes[1]) + byte_hex(bytes[2])
}

/// Whether `s` has the shape of a reference: `MY` and six upper-case
/// hexadecimal digits.
pub open spec fn is_reference(s: Seq<char>) -> bool {
    &&& s.len() == 8
    &&& s.subrange(0, 2) == "MY"@
    &&& forall|i: int| 2 <= i < 8 ==> is_hex_upper(#[trigger] s[i])
}

/// Relies on uuid's `Uuid::new_v4` and `Uuid::as_bytes`: sixteen random
/// bytes, with the version nibble set to 4 and the variant bits to `10`.
#[verifier::external_body]
fn random_uuid_bytes() -> (r: Vec<u8>)
    ensures
        r@.len() == 16,
        r@[6] / 16 == 4,
        r@[8] / 64 == 2,
{
    uuid::Uuid::new_v4().as_bytes().to_vec()
}

fn hex_digit(n: u8) -> (c: char)
    requires
        n < 16,
    ensures
        c == hex_upper(n as int),
        is_hex_upper(c),
{
    if n < 10 {
        (48u8 + n) as char
    } else {
        (55u8 + n) as char
    }
}

/// The reference made from the first three bytes of `bytes`, which are
/// typically those of a random UUID; `None` where there are fewer than
/// three.
pub fn reference_from_uuid_bytes(bytes: &Vec<u8>) -> (r: Option<String>)
    ensures
        r.is_some() <==> bytes@.len() >= 3,
        r.is_some() ==> r.unwrap()@ == reference_text(bytes@),
        r.is_some() ==> is_reference(r.unwrap()@),
{
    if bytes.len() < 3 {
        return None;
    }
    let mut out = String::from_str("MY");
    proof {
        reveal_strlit("MY");
        assert(out@.subrange(0, 2) =~= out@);
    }
    let mut i: usize = 0;
    while i < 3
        invariant
            bytes@.len() >= 3,
            i <= 3,
            out@.len() == 2 + 2 * i,
            out@.subrange(0, 2) == "MY"@,
            forall|k: int| 2 <= k < out@.len() ==> is_hex_upper(#[trigger] out@[k]),
            forall|k: int|
                0 <= k < i ==> out@[2 + 2 * k] == hex_upper((bytes@[k] / 16) as int) && out@[3
                    + 2 * k] == hex_upper((bytes@[k] % 16) as int),
        decreases 3 - i,
    {
        let b = bytes[i];
        let ghost before = out@;
        push_char(&mut out, hex_digit(b / 16));
        push_char(&mut out, hex_digit(b % 16));
        assert(out@.subrange(0, 2) =~= before.subrange(0, 2));
        i = i + 1;
    }
    proof {
        reveal_strlit("MY");
        assert(out@ =~= reference_text(bytes@));
    }
    Some(out)
}

/// A reference made from a fresh random UUID.
pub fn fresh_reference() -> (r: String)
    ensures
        is_reference(r@),
{
    let bytes = random_uuid_bytes();
    reference_from_uuid_bytes(&bytes).unwrap()
}

/// The search for an unused reference: each drawn candidate counts, and
/// after `MAX_REFERENCE_ATTEMPTS` of them the search gives up.
#[derive(Debug, Clone, Copy, PartialEq, Eq, Structural)]
pub struct ReferenceSearch {
    pub attempts: u32,
}

impl ReferenceSearch {
    /// A search that has drawn nothing yet.
    pub fn new() -> (r: ReferenceSearch)
        ensures
            r.attempts == 0,
    {
        ReferenceSearch { attempts: 0 }
    }

    /// The next candidate to try, or Conflict once every attempt is used.
    /// The caller tries the candidate against the store, and draws again
    /// where it is taken.
    pub fn next_candidate(&mut self) -> (r: Result<String, AppError>)
        ensures
            old(self).attempts < MAX_REFERENCE_ATTEMPTS <==> r is Ok,
            r is Ok ==> final(self).attempts == old(self).attempts + 1 && is_reference(r->Ok_0@),
            r is Err ==> r->Err_0 is Conflict && *final(self) == *old(self),
    {
        if self.attempts >= MAX_REFERENCE_ATTEMPTS {
            return Err(
                AppError::Conflict(String::from_str("could not find an unused booking reference")),
            );
        }
        self.attempts = self.attempts + 1;
        Ok(fresh_reference())
    }

    /// What follows a drawn `candidate` once the store has said whether it
    /// is `taken`: a free candidate is used (`Some`); a taken one is drawn
    /// again (`None`) while attempts remain, and is a Conflict after the
    /// last one.
    pub fn settle(&self, candidate: String, taken: bool) -> (r: Result<Option<String>, AppError>)
        ensures
            !taken ==> r == Ok::<Option<String>, AppError>(Some(candidate)),
            taken && self.attempts < MAX_REFERENCE_ATTEMPTS ==> r == Ok::<
                Option<String>,
                AppError,
            >(None),
            taken && self.attempts >= MAX_REFERENCE_ATTEMPTS ==> r is Err && r->Err_0 is Conflict,
    {
        if !taken {
            Ok(Some(candidate))
        } else if self.attempts < MAX_REFERENCE_ATTEMPTS {
            Ok(None)
        } else {
            Err(
                AppError::Conflict(String::from_str("could not find an unused booking reference")),
            )
        }
    }
}

} // verus!
