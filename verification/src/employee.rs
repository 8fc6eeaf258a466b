//! Employee numbers: the numeric identity key written to each device.
//!
//! A locally generated number is a fixed-length string of ASCII digits.
//! When the backend returns an authoritative device identity, it supersedes
//! the local number only if it is itself purely numeric, so that device
//! firmware that requires numeric keys is never handed a non-numeric key.

use vstd::prelude::*;

verus! {

/// Number of digits in a locally generated employee number.
pub const EMPLOYEE_NO_LEN: usize = 10;

pub open spec fn spec_is_ascii_digit(c: char) -> bool {
    '0' <= c && c <= '9'
}

/// Every character of `s` is an ASCII digit.
pub open spec fn spec_all_digits(s: Seq<char>) -> bool {
    forall|i: int| 0 <= i < s.len() ==> spec_is_ascii_digit(#[trigger] s[i])
}

/// Relies on `rand::random::<u8>`: a uniformly random byte.  Nothing is
/// promised of the value; callers must hold for every outcome.
#[verifier::external_body]
fn random_byte() -> u8 {
    rand::random::<u8>()
}

/// Relies on `uuid::Uuid::new_v4` and its hyphenated `Display` form: a
/// random version-4 UUID rendered as 36 ASCII characters.  The value is
/// random, so nothing is promised beyond its length.
#[verifier::external_body]
pub(crate) fn generate_request_id() -> (r: String)
    ensures
        r@.len() == 36,
{
    uuid::Uuid::new_v4().to_string()
}

/// Generate a fresh local employee number: `EMPLOYEE_NO_LEN` random ASCII
/// digits.  The digits are random; the shape is guaranteed.
pub fn generate_employee_no() -> (r: String)
    ensures
        r@.len() == EMPLOYEE_NO_LEN as int,
        spec_all_digits(r@),
{
    let mut chars: Vec<char> = Vec::new();
    let mut i: usize = 0;
    while i < EMPLOYEE_NO_LEN
        invariant
            i <= EMPLOYEE_NO_LEN,
            chars@.len() == i as int,
            spec_all_digits(chars@),
        decreases EMPLOYEE_NO_LEN - i,
    {
        let b = random_byte();
        let d = b % 10;
        let c = (('0' as u8) + d) as char;
        assert(spec_is_ascii_digit(c));
        chars.push(c);
        i = i + 1;
    }
    crate::text::string_from_chars(chars)
}

/// Check that `s` consists of ASCII digits only (an empty string passes
/// trivially: the test is character-wise).
pub fn is_all_digits(s: &str) -> (r: bool)
    ensures
        r == spec_all_digits(s@),
{
    let n = s.unicode_len();
    let mut i: usize = 0;
    while i < n
        invariant
            n == s@.len(),
            i <= n,
            forall|j: int| 0 <= j < i ==> spec_is_ascii_digit(#[trigger] s@[j]),
        decreases n - i,
    {
        let c = s.get_char(i);
        if !('0' <= c && c <= '9') {
            return false;
        }
        i = i + 1;
    }
    true
}

/// The numeric-adoption rule: a backend-returned device identity replaces
/// the local employee number only when it is purely numeric and holds at
/// least one digit; an empty identity never supersedes the local number.
pub open spec fn spec_adopted(local: Seq<char>, backend: Seq<char>) -> Seq<char> {
    if backend.len() > 0 && spec_all_digits(backend) {
        backend
    } else {
        local
    }
}

/// Choose the employee number the saga will use after a successful backend
/// start: the backend's `deviceStudentId` if non-empty and purely
/// numeric, else the locally generated number unchanged.
pub fn adopt_employee_no(local: &str, backend: &str) -> (r: String)
    ensures
        r@ == spec_adopted(local@, backend@),
{
    if !backend.is_empty() && is_all_digits(backend) {
        backend.to_owned()
    } else {
        local.to_owned()
    }
}

} // verus!
