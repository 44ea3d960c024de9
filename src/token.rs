//! Token pairs as the provider issues them and as this library keeps them.
use vstd::prelude::*;
use crate::expiry::{compute_expiry, expiry_fits, expiry_in_range, expiry_of};

verus! {

/// A token pair as the provider's token endpoint returns it.
#[derive(Clone, Debug, PartialEq, Eq)]
pub struct ProviderToken {
    pub access_token: String,
    pub token_type: String,
    /// Seconds until the provider stops accepting the access token.
    pub expires_in: u64,
    /// Absent where the provider keeps the refresh token it issued before.
    pub refresh_token: Option<String>,
}

/// The token pair kept by the manager. `expires_at` is an absolute instant in
/// seconds since the Unix epoch, the safety margin already taken off.
#[derive(Clone, Debug, PartialEq, Eq)]
pub struct TokenRecord {
    pub access_token: String,
    pub refresh_token: String,
    pub token_type: String,
    pub expires_at: i64,
}

pub struct ProviderTokenView {
    pub access_token: Seq<char>,
    pub token_type: Seq<char>,
    pub expires_in: int,
    pub refresh_token: Option<Seq<char>>,
}

pub struct TokenRecordView {
    pub access_token: Seq<char>,
    pub refresh_token: Seq<char>,
    pub token_type: Seq<char>,
    pub expires_at: int,
}

impl View for ProviderToken {
    type V = ProviderTokenView;

    open spec fn view(&self) -> ProviderTokenView {
        ProviderTokenView {
            access_token: self.access_token@,
            token_type: self.token_type@,
            expires_in: self.expires_in as int,
            refresh_token: match self.refresh_token {
                Some(t) => Some(t@),
                None => None,
            },
        }
    }
}

impl View for TokenRecord {
    type V = TokenRecordView;

    open spec fn view(&self) -> TokenRecordView {
        TokenRecordView {
            access_token: self.access_token@,
            refresh_token: self.refresh_token@,
            token_type: self.token_type@,
            expires_at: self.expires_at as int,
        }
    }
}

/// Why an authorization attempt failed. Each is terminal for the attempt.
#[derive(Clone, Debug, PartialEq, Eq)]
pub enum AuthError {
    /// The provider redirected back with an error instead of a code.
    Denied(String),
    /// The redirect carried neither a code nor an error.
    MissingCode,
    /// The provider rejected the code, or answered with a body that does not
    /// hold a complete token pair; carries the provider's payload.
    Exchange(String),
}

pub enum AuthErrorView {
    Denied(Seq<char>),
    MissingCode,
    Exchange(Seq<char>),
}

impl View for AuthError {
    type V = AuthErrorView;

    open spec fn view(&self) -> AuthErrorView {
        match self {
            AuthError::Denied(e) => AuthErrorView::Denied(e@),
            AuthError::MissingCode => AuthErrorView::MissingCode,
            AuthError::Exchange(p) => AuthErrorView::Exchange(p@),
        }
    }
}

impl TokenRecord {
    /// A copy of the record.
    pub fn duplicate(&self) -> (r: TokenRecord)
        ensures
            r@ == self@,
    {
        TokenRecord {
            access_token: self.access_token.clone(),
            refresh_token: self.refresh_token.clone(),
            token_type: self.token_type.clone(),
            expires_at: self.expires_at,
        }
    }
}

/// Whether an HTTP status code reports success.
pub open spec fn is_success(status: int) -> bool {
    200 <= status <= 299
}

/// The record made from a token pair the provider issued at `now`.
pub open spec fn record_of(
    access_token: Seq<char>,
    refresh_token: Seq<char>,
    token_type: Seq<char>,
    now: int,
    expires_in: int,
) -> TokenRecordView {
    TokenRecordView {
        access_token,
        refresh_token,
        token_type,
        expires_at: expiry_of(now, expires_in),
    }
}

/// Whether a provider answer with `status` and parsed body `token` completes
/// an authorization-code exchange at `now`.
pub open spec fn exchange_succeeds(status: int, token: Option<ProviderTokenView>, now: int) -> bool {
    &&& is_success(status)
    &&& token is Some
    &&& token->0.refresh_token is Some
    &&& expiry_fits(now, token->0.expires_in)
}

/// The outcome of an authorization-code exchange: the record made from the
/// provider's answer, or the provider's payload as an exchange error.
pub open spec fn exchange_result(
    status: int,
    token: Option<ProviderTokenView>,
    payload: Seq<char>,
    now: int,
) -> Result<TokenRecordView, AuthErrorView> {
    if exchange_succeeds(status, token, now) {
        let t = token->0;
        Ok(record_of(t.access_token, t.refresh_token->0, t.token_type, now, t.expires_in))
    } else {
        Err(AuthErrorView::Exchange(payload))
    }
}

/// The view of an outcome of an exchange.
pub open spec fn exchange_view(r: Result<TokenRecord, AuthError>) -> Result<TokenRecordView, AuthErrorView> {
    match r {
        Ok(rec) => Ok(rec@),
        Err(e) => Err(e@),
    }
}

/// The view of an optional provider answer.
pub open spec fn token_view(t: Option<ProviderToken>) -> Option<ProviderTokenView> {
    match t {
        Some(t) => Some(t@),
        None => None,
    }
}

/// The code that the provider's redirect carries, or why there is none.
/// An error parameter wins over a code.
pub fn callback_code(code: Option<String>, error: Option<String>) -> (r: Result<String, AuthError>)
    ensures
        error is Some ==> r is Err && r->Err_0@ == AuthErrorView::Denied(error->0@),
        error is None && code is Some ==> r is Ok && r->Ok_0@ == code->0@,
        error is None && code is None ==> r is Err && r->Err_0@ == AuthErrorView::MissingCode,
{
    match error {
        Some(e) => Err(AuthError::Denied(e)),
        None => match code {
            Some(c) => Ok(c),
            None => Err(AuthError::MissingCode),
        },
    }
}

/// Completes an authorization-code exchange from the provider's answer: its
/// HTTP `status`, its body parsed as a token pair (`None` where it is not
/// one) and the raw body `payload`, at time `now`.
pub fn complete_exchange(status: u16, token: Option<ProviderToken>, payload: String, now: i64) -> (r: Result<TokenRecord, AuthError>)
    ensures
        exchange_view(r) == exchange_result(status as int, token_view(token), payload@, now as int),
{
    if status < 200 || status > 299 {
        return Err(AuthError::Exchange(payload));
    }
    match token {
        None => Err(AuthError::Exchange(payload)),
        Some(t) => match t.refresh_token {
            None => Err(AuthError::Exchange(payload)),
            Some(refresh_token) => {
                if !expiry_in_range(now, t.expires_in) {
                    return Err(AuthError::Exchange(payload));
                }
                let expires_at = compute_expiry(now, t.expires_in);
                Ok(TokenRecord {
                    access_token: t.access_token,
                    refresh_token,
                    token_type: t.token_type,
                    expires_at,
                })
            },
        },
    }
}

/// The authorization codes already presented for exchange: each is
/// exchanged at most once, and an attempt that fails is not retried with the
/// same code (the user starts again from the authorization URL).
pub struct CodeLedger {
    claimed: Vec<String>,
}

impl View for CodeLedger {
    type V = Seq<Seq<char>>;

    closed spec fn view(&self) -> Seq<Seq<char>> {
        self.claimed@.map_values(|c: String| c@)
    }
}

impl CodeLedger {
    /// A ledger with no code claimed.
    pub fn new() -> (r: Self)
        ensures
            r@ == Seq::<Seq<char>>::empty(),
    {
        CodeLedger { claimed: Vec::new() }
    }

    /// Whether `code` was already claimed.
    pub fn is_redeemed(&self, code: &String) -> (r: bool)
        ensures
            r == self@.contains(code@),
    {
        let mut i: usize = 0;
        while i < self.claimed.len()
            invariant
                i <= self.claimed@.len(),
                forall|k: int| 0 <= k < i ==> self@[k] != code@,
            decreases self.claimed@.len() - i,
        {
            if self.claimed[i] == *code {
                assert(self@[i as int] == code@);
                return true;
            }
            i = i + 1;
        }
        false
    }

    /// Claims `code` for an exchange, in one step: `true` where it was not
    /// claimed before, and it is claimed afterwards either way.
    pub fn claim(&mut self, code: String) -> (r: bool)
        ensures
            r == !old(self)@.contains(code@),
            r ==> final(self)@ == old(self)@.push(code@),
            !r ==> final(self)@ == old(self)@,
    {
        if self.is_redeemed(&code) {
            false
        } else {
            self.claimed.push(code);
            assert(self@ =~= old(self)@.push(code@));
            true
        }
    }
}

} // verus!
