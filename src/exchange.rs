//! What is sent to the provider's token endpoint, and the reply of the
//! on-demand refresh endpoint.
use vstd::prelude::*;
use vstd::string::*;
use crate::token::is_success;

verus! {

/// A form field: name and value.
pub type FormField = (String, String);

/// The form fields as pairs of character sequences.
pub open spec fn form_view(f: Seq<FormField>) -> Seq<(Seq<char>, Seq<char>)> {
    f.map_values(|p: FormField| (p.0@, p.1@))
}

/// The fields of an authorization-code exchange.
pub open spec fn code_form_of(code: Seq<char>, redirect_uri: Seq<char>) -> Seq<(Seq<char>, Seq<char>)> {
    seq![
        ("grant_type"@, "authorization_code"@),
        ("code"@, code),
        ("redirect_uri"@, redirect_uri),
    ]
}

/// The fields of a refresh-token exchange.
pub open spec fn refresh_form_of(refresh_token: Seq<char>) -> Seq<(Seq<char>, Seq<char>)> {
    seq![("grant_type"@, "refresh_token"@), ("refresh_token"@, refresh_token)]
}

/// The form that trades the authorization `code` for a token pair.
pub fn code_exchange_form(code: &str, redirect_uri: &str) -> (r: Vec<FormField>)
    ensures
        form_view(r@) == code_form_of(code@, redirect_uri@),
{
    let r = vec![
        (String::from_str("grant_type"), String::from_str("authorization_code")),
        (String::from_str("code"), String::from_str(code)),
        (String::from_str("redirect_uri"), String::from_str(redirect_uri)),
    ];
    assert(form_view(r@) =~= code_form_of(code@, redirect_uri@));
    r
}

/// The form that trades `refresh_token` for a new access token.
pub fn refresh_exchange_form(refresh_token: &str) -> (r: Vec<FormField>)
    ensures
        form_view(r@) == refresh_form_of(refresh_token@),
{
    let r = vec![
        (String::from_str("grant_type"), String::from_str("refresh_token")),
        (String::from_str("refresh_token"), String::from_str(refresh_token)),
    ];
    assert(form_view(r@) =~= refresh_form_of(refresh_token@));
    r
}

/// The reply of the on-demand refresh endpoint.
#[derive(Clone, Debug, PartialEq, Eq)]
pub enum RefreshReply {
    /// Status 200: the provider's token body, unchanged.
    Token(String),
    /// Status 400: a body `{"error": message}`.
    Error(String),
}

impl RefreshReply {
    /// The HTTP status of the reply.
    pub fn status(&self) -> (r: u16)
        ensures
            self is Token ==> r == 200,
            self is Error ==> r == 400,
    {
        match self {
            RefreshReply::Token(_) => 200,
            RefreshReply::Error(_) => 400,
        }
    }
}

/// The reply to an on-demand refresh, from the provider's answer: its status
/// and body, or the message of a failure to reach it. Only a success status
/// passes the body on as a token; otherwise the provider's body, or the
/// failure's message, is the error.
pub fn refresh_reply(answer: Result<(u16, String), String>) -> (r: RefreshReply)
    ensures
        answer is Err ==> r is Error && r->Error_0@ == answer->Err_0@,
        answer is Ok && is_success(answer->Ok_0.0 as int) ==> r is Token && r->Token_0@ == answer->Ok_0.1@,
        answer is Ok && !is_success(answer->Ok_0.0 as int) ==> r is Error && r->Error_0@ == answer->Ok_0.1@,
{
    match answer {
        Err(message) => RefreshReply::Error(message),
        Ok((status, body)) => {
            if 200 <= status && status <= 299 {
                RefreshReply::Token(body)
            } else {
                RefreshReply::Error(body)
            }
        },
    }
}

} // verus!
