//! Absolute expiry instants, in seconds since the Unix epoch.
use vstd::prelude::*;

verus! {

/// Seconds subtracted from the lifetime a provider reports, so that a token
/// is refreshed well before the provider stops accepting it.
pub const SAFETY_MARGIN: u64 = 450;

/// The absolute expiry instant of a token issued at `now` that the provider
/// says lives for `expires_in` seconds.
pub open spec fn expiry_of(now: int, expires_in: int) -> int {
    now + expires_in - SAFETY_MARGIN
}

/// Whether `expiry_of(now, expires_in)` can be held in an `i64`.
pub open spec fn expiry_fits(now: int, expires_in: int) -> bool {
    i64::MIN <= expiry_of(now, expires_in) <= i64::MAX
}

/// Whether a token that expires at `expires_at` is due for a refresh at `now`,
/// checking every `tick` seconds: it has expired or will within one tick.
pub open spec fn due_for_refresh(expires_at: int, now: int, tick: int) -> bool {
    expires_at <= now + tick
}

/// Tells whether `compute_expiry(now, expires_in)` can be computed.
pub fn expiry_in_range(now: i64, expires_in: u64) -> (r: bool)
    ensures
        r == expiry_fits(now as int, expires_in as int),
{
    let e: i128 = now as i128 + expires_in as i128 - SAFETY_MARGIN as i128;
    i64::MIN as i128 <= e && e <= i64::MAX as i128
}

/// The expiry instant of a token issued at `now` with a lifetime of
/// `expires_in` seconds, the safety margin already taken off. A lifetime
/// shorter than the margin gives an instant before `now`: such a token is
/// already due for a refresh.
pub fn compute_expiry(now: i64, expires_in: u64) -> (r: i64)
    requires
        expiry_fits(now as int, expires_in as int),
    ensures
        r == expiry_of(now as int, expires_in as int),
        expires_in >= SAFETY_MARGIN ==> r == now + expires_in - SAFETY_MARGIN,
        expires_in < SAFETY_MARGIN ==> r < now,
{
    let e: i128 = now as i128 + expires_in as i128 - SAFETY_MARGIN as i128;
    e as i64
}

/// Whether a token that expires at `expires_at` must be refreshed at `now`
/// by a loop that checks every `tick` seconds.
pub fn needs_refresh(expires_at: i64, now: i64, tick: u64) -> (r: bool)
    ensures
        r == due_for_refresh(expires_at as int, now as int, tick as int),
{
    (expires_at as i128) <= (now as i128) + (tick as i128)
}

} // verus!
