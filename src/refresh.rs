//! The refresh guard and the token record it protects.
use vstd::prelude::*;
use crate::expiry::{
    compute_expiry, due_for_refresh, expiry_fits, expiry_in_range, needs_refresh,
};
use crate::token::{
    is_success, record_of, token_view, ProviderToken, ProviderTokenView, TokenRecord, TokenRecordView,
};

verus! {

/// What a reader of the token is told.
#[derive(Clone, Debug, PartialEq, Eq)]
pub enum TokenRead {
    /// A refresh holds the guard: ask again later.
    Wait,
    /// The current access token, `None` where no token was ever obtained.
    Ready(Option<String>),
}

/// What the background loop is to do next.
#[derive(Clone, Debug, PartialEq, Eq)]
pub enum RefreshStep {
    /// Nothing is due; check again after the next tick.
    Idle,
    /// The guard is taken: send this refresh token to the provider, then end
    /// the cycle with `finish_refresh`, or with `refreshed_record` and, once
    /// the new record is persisted, `end_refresh`.
    Exchange(String),
}

/// The guard and the current record. While `refreshing` holds, readers wait
/// and nothing but the refresh cycle that took the guard writes the record.
pub struct RefreshCoordinator {
    refreshing: bool,
    record: Option<TokenRecord>,
}

pub struct CoordinatorView {
    pub refreshing: bool,
    pub record: Option<TokenRecordView>,
}

impl View for RefreshCoordinator {
    type V = CoordinatorView;

    closed spec fn view(&self) -> CoordinatorView {
        CoordinatorView {
            refreshing: self.refreshing,
            record: match self.record {
                Some(r) => Some(r@),
                None => None,
            },
        }
    }
}

/// What a read of the token gives in state `s`: `None` means wait, else the
/// access token if any.
pub open spec fn read_of(s: CoordinatorView) -> Option<Option<Seq<char>>> {
    if s.refreshing {
        None
    } else {
        match s.record {
            Some(r) => Some(Some(r.access_token)),
            None => Some(None),
        }
    }
}

/// The view of a read.
pub open spec fn read_view(r: TokenRead) -> Option<Option<Seq<char>>> {
    match r {
        TokenRead::Wait => None,
        TokenRead::Ready(Some(t)) => Some(Some(t@)),
        TokenRead::Ready(None) => Some(None),
    }
}

/// Whether the background loop starts a refresh in state `s` at `now`.
pub open spec fn refresh_starts(s: CoordinatorView, now: int, tick: int) -> bool {
    &&& !s.refreshing
    &&& s.record is Some
    &&& due_for_refresh(s.record->0.expires_at, now, tick)
}

/// Whether the provider's answer `answer` to a refresh at `now` replaces the
/// record `old`.
pub open spec fn refresh_succeeds(old: Option<TokenRecordView>, answer: Option<ProviderTokenView>, now: int) -> bool {
    &&& old is Some
    &&& answer is Some
    &&& expiry_fits(now, answer->0.expires_in)
}

/// The record after a refresh answered by `t` at `now`: a refresh token the
/// provider left out stays as it was.
pub open spec fn refreshed(old: TokenRecordView, t: ProviderTokenView, now: int) -> TokenRecordView {
    record_of(
        t.access_token,
        match t.refresh_token {
            Some(r) => r,
            None => old.refresh_token,
        },
        t.token_type,
        now,
        t.expires_in,
    )
}

/// The state after a refresh cycle in `s` ends with `answer` at `now`
/// (`answer` is `None` where the exchange failed): the guard is released, and
/// the record is replaced whole or kept as it was.
pub open spec fn finish_of(s: CoordinatorView, answer: Option<ProviderTokenView>, now: int) -> CoordinatorView {
    CoordinatorView {
        refreshing: false,
        record: if refresh_succeeds(s.record, answer, now) {
            Some(refreshed(s.record->0, answer->0, now))
        } else {
            s.record
        },
    }
}

impl RefreshCoordinator {
    /// A coordinator holding the record found in the store, if any. The
    /// guard starts taken, until `release_startup_guard`.
    pub fn new(stored: Option<TokenRecord>) -> (r: Self)
        ensures
            r@.refreshing,
            r@.record == token_record_view(stored),
    {
        RefreshCoordinator { refreshing: true, record: stored }
    }

    /// Ends the start-up phase: readers may proceed.
    pub fn release_startup_guard(&mut self)
        ensures
            !final(self)@.refreshing,
            final(self)@.record == old(self)@.record,
    {
        self.refreshing = false;
    }

    /// Whether a refresh holds the guard.
    pub fn is_refreshing(&self) -> (r: bool)
        ensures
            r == self@.refreshing,
    {
        self.refreshing
    }

    /// The current record.
    pub fn record(&self) -> (r: &Option<TokenRecord>)
        ensures
            token_record_view(*r) == self@.record,
    {
        &self.record
    }

    /// Reads the access token. While a refresh holds the guard this gives
    /// `Wait` and never a token.
    pub fn read_token(&self) -> (r: TokenRead)
        ensures
            read_view(r) == read_of(self@),
            self@.refreshing ==> r is Wait,
    {
        if self.refreshing {
            TokenRead::Wait
        } else {
            match &self.record {
                Some(rec) => TokenRead::Ready(Some(rec.access_token.clone())),
                None => TokenRead::Ready(None),
            }
        }
    }

    /// Installs the record that an authorization-code exchange produced.
    /// While a refresh holds the guard nothing is written and the record is
    /// handed back: the caller waits for the guard and tries again.
    pub fn install(&mut self, record: TokenRecord) -> (r: Result<(), TokenRecord>)
        ensures
            old(self)@.refreshing ==> r is Err && r->Err_0@ == record@ && final(self)@ == old(self)@,
            !old(self)@.refreshing ==> r is Ok && final(self)@ == (CoordinatorView {
                record: Some(record@),
                ..old(self)@
            }),
    {
        if self.refreshing {
            Err(record)
        } else {
            self.record = Some(record);
            Ok(())
        }
    }

    /// Decides at `now` whether a refresh is due, for a loop that checks
    /// every `tick` seconds. Where one is, takes the guard and hands out the
    /// refresh token to send.
    pub fn begin_refresh(&mut self, now: i64, tick: u64) -> (r: RefreshStep)
        ensures
            refresh_starts(old(self)@, now as int, tick as int) ==> {
                &&& r is Exchange
                &&& r->Exchange_0@ == old(self)@.record->0.refresh_token
                &&& final(self)@ == (CoordinatorView { refreshing: true, ..old(self)@ })
            },
            !refresh_starts(old(self)@, now as int, tick as int) ==> r is Idle && final(self)@ == old(self)@,
    {
        if self.refreshing {
            return RefreshStep::Idle;
        }
        match &self.record {
            None => RefreshStep::Idle,
            Some(rec) => {
                if needs_refresh(rec.expires_at, now, tick) {
                    let token = rec.refresh_token.clone();
                    self.refreshing = true;
                    RefreshStep::Exchange(token)
                } else {
                    RefreshStep::Idle
                }
            },
        }
    }

    /// The record that the provider's answer to a refresh (`None` where the
    /// exchange failed) makes at `now`, without installing it: `None` where
    /// the answer does not replace the record.
    pub fn refreshed_record(&self, answer: Option<ProviderToken>, now: i64) -> (r: Option<TokenRecord>)
        ensures
            refresh_succeeds(self@.record, token_view(answer), now as int)
                ==> r is Some && r->0@ == refreshed(self@.record->0, token_view(answer)->0, now as int),
            !refresh_succeeds(self@.record, token_view(answer), now as int) ==> r is None,
    {
        match answer {
            None => None,
            Some(t) => {
                if !expiry_in_range(now, t.expires_in) {
                    return None;
                }
                match &self.record {
                    None => None,
                    Some(rec) => {
                        let expires_at = compute_expiry(now, t.expires_in);
                        let refresh_token = match t.refresh_token {
                            Some(rt) => rt,
                            None => rec.refresh_token.clone(),
                        };
                        Some(TokenRecord {
                            access_token: t.access_token,
                            refresh_token,
                            token_type: t.token_type,
                            expires_at,
                        })
                    },
                }
            },
        }
    }

    /// Ends the refresh cycle that holds the guard: installs `fresh` where
    /// there is one (the refreshed record, once persisted), and otherwise
    /// keeps the record as it was. The guard is released either way.
    pub fn end_refresh(&mut self, fresh: Option<TokenRecord>)
        ensures
            !final(self)@.refreshing,
            fresh is Some ==> final(self)@.record == Some(fresh->0@),
            fresh is None ==> final(self)@.record == old(self)@.record,
    {
        self.refreshing = false;
        if let Some(rec) = fresh {
            self.record = Some(rec);
        }
    }

    /// Ends the refresh cycle that holds the guard, with the provider's
    /// answer (`None` where the exchange failed) at `now`. The guard is
    /// released whatever the answer; a failed cycle leaves the record as it
    /// was. Returns the new record, to be persisted, where there is one.
    pub fn finish_refresh(&mut self, answer: Option<ProviderToken>, now: i64) -> (r: Option<TokenRecord>)
        ensures
            final(self)@ == finish_of(old(self)@, token_view(answer), now as int),
            !final(self)@.refreshing,
            refresh_succeeds(old(self)@.record, token_view(answer), now as int)
                ==> r is Some && final(self)@.record == Some(r->0@),
            !refresh_succeeds(old(self)@.record, token_view(answer), now as int)
                ==> r is None && final(self)@.record == old(self)@.record,
    {
        match self.refreshed_record(answer, now) {
            Some(rec) => {
                let out = rec.duplicate();
                self.end_refresh(Some(rec));
                Some(out)
            },
            None => {
                self.end_refresh(None);
                None
            },
        }
    }

}

/// The provider's answer to a refresh as the coordinator takes it: the
/// parsed token pair where the status reports success, else a failure.
pub fn refresh_answer(status: u16, token: Option<ProviderToken>) -> (r: Option<ProviderToken>)
    ensures
        is_success(status as int) ==> token_view(r) == token_view(token),
        !is_success(status as int) ==> r is None,
{
    if 200 <= status && status <= 299 {
        token
    } else {
        None
    }
}

/// The view of an optional record.
pub open spec fn token_record_view(r: Option<TokenRecord>) -> Option<TokenRecordView> {
    match r {
        Some(r) => Some(r@),
        None => None,
    }
}

} // verus!
