//! Laws that relate the operations of the token lifecycle.
use vstd::prelude::*;
use crate::expiry::{expiry_fits, expiry_of, SAFETY_MARGIN};
use crate::refresh::{finish_of, read_of, refresh_starts, refresh_succeeds, CoordinatorView};
use crate::token::{exchange_result, exchange_succeeds, is_success, ProviderTokenView};

verus! {

/// A token pair obtained by an authorization-code exchange and installed
/// reads back with the provider's access token, and the record keeps the
/// provider's refresh token and token type; its expiry is the absolute
/// instant `now + expires_in - SAFETY_MARGIN`, not the lifetime itself.
pub proof fn lemma_exchange_round_trip(
    status: int,
    token: ProviderTokenView,
    payload: Seq<char>,
    now: int,
    s: CoordinatorView,
)
    requires
        exchange_succeeds(status, Some(token), now),
        !s.refreshing,
    ensures
        exchange_result(status, Some(token), payload, now) is Ok,
        ({
            let rec = exchange_result(status, Some(token), payload, now)->Ok_0;
            &&& rec.access_token == token.access_token
            &&& rec.refresh_token == token.refresh_token->0
            &&& rec.token_type == token.token_type
            &&& rec.expires_at == now + token.expires_in - SAFETY_MARGIN
            &&& now != SAFETY_MARGIN ==> rec.expires_at != token.expires_in
            &&& read_of(CoordinatorView { record: Some(rec), ..s }) == Some(Some(token.access_token))
        }),
{
}

/// A refresh cycle that fails leaves the record exactly as it was and
/// releases the guard.
pub proof fn lemma_failed_refresh_keeps_record(s: CoordinatorView, now: int)
    ensures
        finish_of(s, None, now).record == s.record,
        !finish_of(s, None, now).refreshing,
{
}

/// Readers that arrive while a refresh cycle holds the guard are told to
/// wait; once the cycle installs a new token pair and releases the guard,
/// every reader sees the new access token.
pub proof fn lemma_readers_see_refreshed_token(
    s: CoordinatorView,
    now: int,
    tick: int,
    answer: ProviderTokenView,
    later: int,
)
    requires
        refresh_starts(s, now, tick),
        expiry_fits(later, answer.expires_in),
    ensures
        ({
            let held = CoordinatorView { refreshing: true, ..s };
            let after = finish_of(held, Some(answer), later);
            &&& read_of(held) is None
            &&& read_of(after) == Some(Some(answer.access_token))
            &&& after.record->0.expires_at == expiry_of(later, answer.expires_in)
        }),
{
    let held = CoordinatorView { refreshing: true, ..s };
    assert(refresh_succeeds(held.record, Some(answer), later));
}

/// The expiry of a record obtained by an authorization-code exchange at
/// `now` is `now + expires_in - SAFETY_MARGIN`; with a lifetime shorter than
/// the margin it lies before `now`, and the exchange still succeeds.
pub proof fn lemma_exchange_expiry(status: int, token: ProviderTokenView, payload: Seq<char>, now: int)
    requires
        exchange_succeeds(status, Some(token), now),
    ensures
        ({
            let rec = exchange_result(status, Some(token), payload, now)->Ok_0;
            &&& rec.expires_at == now + token.expires_in - SAFETY_MARGIN
            &&& token.expires_in < SAFETY_MARGIN ==> rec.expires_at < now
        }),
{
}

/// At any time since the epoch, a lifetime shorter than the margin has an
/// expiry that can be held, and lies in the past: a successful answer with
/// such a lifetime gives a record that is already due.
pub proof fn lemma_short_lifetime_already_expired(status: int, token: ProviderTokenView, now: int)
    requires
        0 <= now <= i64::MAX,
        0 <= token.expires_in < SAFETY_MARGIN,
        is_success(status),
        token.refresh_token is Some,
    ensures
        exchange_succeeds(status, Some(token), now),
        expiry_of(now, token.expires_in) < now,
{
}

/// A read never sees part of a record: before a refresh cycle it gives the
/// whole old access token, while the cycle holds the guard it gives nothing,
/// and after the cycle it gives either the whole old access token (the cycle
/// failed) or the whole new one.
pub proof fn lemma_reads_are_whole(
    s: CoordinatorView,
    now: int,
    tick: int,
    answer: Option<ProviderTokenView>,
    later: int,
)
    requires
        refresh_starts(s, now, tick),
    ensures
        read_of(s) == Some(Some(s.record->0.access_token)),
        read_of(CoordinatorView { refreshing: true, ..s }) is None,
        ({
            let after = finish_of(CoordinatorView { refreshing: true, ..s }, answer, later);
            ||| read_of(after) == Some(Some(s.record->0.access_token))
            ||| (answer is Some && read_of(after) == Some(Some(answer->0.access_token)))
        }),
{
}

} // verus!
