//! The revision date: one instant that sums up when a principal's vault
//! last changed, which clients compare with their own to decide whether
//! to synchronise.
//!
//! Up to three timestamps feed it: the user's own `updated_at`, the
//! greatest `updated_at` among the user's ciphers, and the greatest among
//! the user's folders. Each is read as an RFC 3339 date-time; one that
//! is absent or does not read as such is left out. The revision date is
//! the latest of those that remain, in milliseconds since the Unix epoch,
//! and the current time where none remains.

use vstd::prelude::*;
use crate::clock::{now_millis, parse_rfc3339_millis, rfc3339_millis};

verus! {

/// The instant read from a timestamp that may be absent.
pub open spec fn instant_of(stamp: Option<Seq<char>>) -> Option<i64> {
    match stamp {
        Some(text) => rfc3339_millis(text),
        None => None,
    }
}

/// The later of two instants that may be absent.
pub open spec fn later(a: Option<i64>, b: Option<i64>) -> Option<i64> {
    match (a, b) {
        (Some(x), Some(y)) => Some(if x >= y { x } else { y }),
        (Some(x), None) => Some(x),
        (None, _) => b,
    }
}

/// The latest of three instants that may be absent.
pub open spec fn latest(user: Option<i64>, cipher: Option<i64>, folder: Option<i64>) -> Option<i64> {
    later(later(user, cipher), folder)
}

/// The revision date, given what the three timestamps were read as and the
/// current time.
pub open spec fn revision(
    user: Option<i64>,
    cipher: Option<i64>,
    folder: Option<i64>,
    now: i64,
) -> i64 {
    match latest(user, cipher, folder) {
        Some(millis) => millis,
        None => now,
    }
}

/// The latest of three is one of them and is exceeded by none; it is absent
/// only where all three are.
pub proof fn lemma_latest_is_maximum(user: Option<i64>, cipher: Option<i64>, folder: Option<i64>)
    ensures
        latest(user, cipher, folder) is None <==> user is None && cipher is None && folder is None,
        latest(user, cipher, folder) matches Some(m) ==> {
            &&& user == Some(m) || cipher == Some(m) || folder == Some(m)
            &&& user matches Some(u) ==> u <= m
            &&& cipher matches Some(c) ==> c <= m
            &&& folder matches Some(f) ==> f <= m
        },
{
}

/// A change that moves one of the three instants forward never moves the
/// revision date backwards, as long as at least one instant is read.
pub proof fn lemma_revision_is_monotonic(
    user: Option<i64>,
    cipher: Option<i64>,
    folder: Option<i64>,
    user_after: Option<i64>,
    cipher_after: Option<i64>,
    folder_after: Option<i64>,
    now: i64,
    now_after: i64,
)
    requires
        latest(user, cipher, folder) is Some,
        user matches Some(u) ==> user_after matches Some(v) && u <= v,
        cipher matches Some(c) ==> cipher_after matches Some(d) && c <= d,
        folder matches Some(f) ==> folder_after matches Some(g) && f <= g,
    ensures
        revision(user, cipher, folder, now) <= revision(
            user_after,
            cipher_after,
            folder_after,
            now_after,
        ),
{
}

/// The later of two instants that may be absent.
fn later_of(a: Option<i64>, b: Option<i64>) -> (r: Option<i64>)
    ensures
        r == later(a, b),
{
    match (a, b) {
        (Some(x), Some(y)) => Some(if x >= y { x } else { y }),
        (Some(x), None) => Some(x),
        (None, _) => b,
    }
}

/// The revision date from what the three timestamps were read as, with
/// `now` as the current time.
pub fn revision_of(user: Option<i64>, cipher: Option<i64>, folder: Option<i64>, now: i64) -> (r: i64)
    ensures
        r == revision(user, cipher, folder, now),
{
    match later_of(later_of(user, cipher), folder) {
        Some(millis) => millis,
        None => now,
    }
}

/// Reads a timestamp that may be absent.
pub fn read_instant(stamp: &Option<String>) -> (r: Option<i64>)
    ensures
        r == instant_of(crate::text::opt_text(*stamp)),
{
    match stamp {
        Some(text) => parse_rfc3339_millis(text.as_str()),
        None => None,
    }
}

/// The revision date from the three timestamps as the store holds them.
///
/// Where at least one of them reads as a date-time the result is the
/// latest of those. Where none does, the result is the current time, of
/// which nothing is known here.
pub fn revision_from(
    user_updated: &Option<String>,
    cipher_updated: &Option<String>,
    folder_updated: &Option<String>,
) -> (r: i64)
    ensures
        latest(
            instant_of(crate::text::opt_text(*user_updated)),
            instant_of(crate::text::opt_text(*cipher_updated)),
            instant_of(crate::text::opt_text(*folder_updated)),
        ) matches Some(millis) ==> r == millis,
{
    let user = read_instant(user_updated);
    let cipher = read_instant(cipher_updated);
    let folder = read_instant(folder_updated);
    match later_of(later_of(user, cipher), folder) {
        Some(millis) => millis,
        None => now_millis(),
    }
}

} // verus!
