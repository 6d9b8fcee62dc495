//! Change-detection tokens. A namespace gets a new token whenever its set
//! of flags changes: the time of the change, in milliseconds since the Unix
//! epoch, written in radix sixteen. A namespace that never changed has the
//! empty token.

use crate::numeral::{hex, hex_text, lemma_hex_text_injective, lemma_hex_text_len};
use vstd::prelude::*;

verus! {

/// A point in time as the system clock gives it.
#[verifier::external_type_specification]
#[verifier::external_body]
pub struct ExSystemTime(std::time::SystemTime);

/// The error of asking how long after a later time an earlier one is.
#[verifier::external_type_specification]
#[verifier::external_body]
pub struct ExSystemTimeError(std::time::SystemTimeError);

/// Calls `std::time::SystemTime::now`. Nothing is claimed of the result.
#[verifier::external_body]
fn clock_now() -> std::time::SystemTime {
    std::time::SystemTime::now()
}

/// Calls `SystemTime::duration_since` with `UNIX_EPOCH` as the earlier
/// time. Nothing is claimed of the result.
#[verifier::external_body]
fn since_epoch(now: &std::time::SystemTime) -> Result<
    std::time::Duration,
    std::time::SystemTimeError,
> {
    now.duration_since(std::time::UNIX_EPOCH)
}

/// Calls `Duration::as_millis`. Nothing is claimed of the result.
#[verifier::external_body]
fn whole_millis(span: &std::time::Duration) -> u128 {
    span.as_millis()
}

/// The token of a namespace that never changed.
pub open spec fn default_etag() -> Seq<char> {
    Seq::<char>::empty()
}

/// The token of a change made at `millis`.
pub open spec fn etag_text(millis: u128) -> Seq<char> {
    hex_text(millis as nat)
}

/// Whether `etag` is the token of a change, made at whatever time.
pub open spec fn is_assigned(etag: Seq<char>) -> bool {
    exists|millis: u128| etag == #[trigger] etag_text(millis)
}

/// The time now, in milliseconds since the Unix epoch; zero where the
/// clock stands before the epoch.
pub fn now_millis() -> u128 {
    let now = clock_now();
    match since_epoch(&now) {
        Ok(span) => whole_millis(&span),
        Err(_) => 0,
    }
}

/// The token of a change made at `millis`.
pub fn etag_for(millis: u128) -> (etag: String)
    ensures
        etag@ == etag_text(millis),
        is_assigned(etag@),
{
    let etag = hex(millis);
    proof {
        assert(etag@ == etag_text(millis));
    }
    etag
}

/// Changes made at different times have different tokens.
pub proof fn lemma_etags_differ(earlier: u128, later: u128)
    requires
        earlier != later,
    ensures
        etag_text(earlier) != etag_text(later),
{
    if etag_text(earlier) == etag_text(later) {
        lemma_hex_text_injective(earlier as nat, later as nat);
    }
}

/// The token of a change is never the token of a namespace that never
/// changed.
pub proof fn lemma_assigned_is_not_default(etag: Seq<char>)
    requires
        is_assigned(etag),
    ensures
        etag != default_etag(),
{
    let millis = choose|millis: u128| etag == #[trigger] etag_text(millis);
    lemma_hex_text_len(millis as nat);
}

} // verus!
