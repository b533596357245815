use vstd::prelude::*;

use crate::entities::normalized;

verus! {

/// Relies on str::to_ascii_lowercase: letters 'A' to 'Z' become 'a' to 'z',
/// every other character stays as it is.
#[verifier::external_body]
pub(crate) fn lowercase_ascii(s: &str) -> (r: String)
    ensures
        r@ == normalized(s@),
{
    s.to_ascii_lowercase()
}

/// Relies on chrono::Utc::now and DateTime::timestamp: the current time in
/// seconds since the Unix epoch. Nothing is promised of its value.
#[verifier::external_body]
pub(crate) fn current_time() -> (r: i64) {
    chrono::Utc::now().timestamp()
}

/// Relies on uuid::Uuid::new_v4 and Uuid::as_u128: a version 4 UUID, 122 bits of
/// which come from the operating system's random source (6 are fixed version
/// and variant bits). Nothing is promised of its value.
#[verifier::external_body]
pub(crate) fn random_u128() -> (r: u128) {
    uuid::Uuid::new_v4().as_u128()
}

} // verus!
