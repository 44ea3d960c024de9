//! The provider's authorization URL and the loopback redirect URI.
use vstd::prelude::*;
use vstd::string::*;

verus! {

/// The provider's authorization endpoint.
pub const AUTHORIZE_ENDPOINT: &'static str = "https://accounts.spotify.com/authorize";

/// The provider's token endpoint.
pub const TOKEN_ENDPOINT: &'static str = "https://accounts.spotify.com/api/token";

/// What stands between two scopes in the authorization URL.
pub const SCOPE_SEPARATOR: &'static str = "%20";

/// The client's credentials and the scopes it asks for, in order.
pub struct ClientCredentials {
    pub client_id: String,
    pub client_secret: String,
    pub scopes: Vec<String>,
}

/// The scopes as sequences of characters.
pub open spec fn scopes_view(scopes: Seq<String>) -> Seq<Seq<char>> {
    scopes.map_values(|s: String| s@)
}

/// Characters that stand for themselves in a URL component.
pub open spec fn is_unreserved(c: char) -> bool {
    ('A' <= c && c <= 'Z') || ('a' <= c && c <= 'z') || ('0' <= c && c <= '9') || c == '-'
        || c == '.' || c == '_' || c == '~'
}

/// The upper-case hexadecimal digit of `n`, for `n < 16`.
pub open spec fn hex_digit(n: int) -> char {
    seq!['0', '1', '2', '3', '4', '5', '6', '7', '8', '9', 'A', 'B', 'C', 'D', 'E', 'F'][n]
}

/// The UTF-8 encoding of `c`.
pub open spec fn utf8_of(c: char) -> Seq<u8> {
    let n = c as int;
    if n < 0x80 {
        seq![n as u8]
    } else if n < 0x800 {
        seq![(0xC0 + n / 64) as u8, (0x80 + n % 64) as u8]
    } else if n < 0x10000 {
        seq![(0xE0 + n / 4096) as u8, (0x80 + (n / 64) % 64) as u8, (0x80 + n % 64) as u8]
    } else {
        seq![
            (0xF0 + n / 262144) as u8,
            (0x80 + (n / 4096) % 64) as u8,
            (0x80 + (n / 64) % 64) as u8,
            (0x80 + n % 64) as u8,
        ]
    }
}

/// Each byte written as `%` and two hexadecimal digits.
pub open spec fn percent_bytes(b: Seq<u8>) -> Seq<char>
    decreases b.len(),
{
    if b.len() == 0 {
        Seq::empty()
    } else {
        let x = b.last() as int;
        percent_bytes(b.drop_last()) + seq!['%', hex_digit(x / 16), hex_digit(x % 16)]
    }
}

/// One character as it stands in a URL component.
pub open spec fn escape_char(c: char) -> Seq<char> {
    if is_unreserved(c) {
        seq![c]
    } else {
        percent_bytes(utf8_of(c))
    }
}

/// `s` percent-encoded as a URL component.
pub open spec fn url_escape(s: Seq<char>) -> Seq<char>
    decreases s.len(),
{
    if s.len() == 0 {
        Seq::empty()
    } else {
        url_escape(s.drop_last()) + escape_char(s.last())
    }
}

/// The scopes in order, with the separator between two of them.
pub open spec fn join_scopes(scopes: Seq<Seq<char>>) -> Seq<char>
    decreases scopes.len(),
{
    if scopes.len() == 0 {
        Seq::empty()
    } else if scopes.len() == 1 {
        scopes[0]
    } else {
        join_scopes(scopes.drop_last()) + SCOPE_SEPARATOR@ + scopes.last()
    }
}

/// The authorization URL for `client_id`, redirecting to `redirect_uri`,
/// asking for `scopes`.
pub open spec fn authorization_url(client_id: Seq<char>, redirect_uri: Seq<char>, scopes: Seq<Seq<char>>) -> Seq<char> {
    AUTHORIZE_ENDPOINT@ + "?client_id="@ + client_id + "&response_type=code&redirect_uri="@
        + url_escape(redirect_uri) + "&scope="@ + join_scopes(scopes)
}

/// The redirect URI served at the loopback address `addr` (`host:port`).
pub open spec fn callback_uri_of(addr: Seq<char>) -> Seq<char> {
    "http://"@ + addr + "/callback"@
}

/// The UTF-8 encoding of `c`.
fn utf8_bytes(c: char) -> (r: Vec<u8>)
    ensures
        r@ == utf8_of(c),
{
    let n: u32 = c as u32;
    if n < 0x80 {
        vec![n as u8]
    } else if n < 0x800 {
        vec![(0xC0 + n / 64) as u8, (0x80 + n % 64) as u8]
    } else if n < 0x10000 {
        vec![(0xE0 + n / 4096) as u8, (0x80 + (n / 64) % 64) as u8, (0x80 + n % 64) as u8]
    } else {
        vec![
            (0xF0 + n / 262144) as u8,
            (0x80 + (n / 4096) % 64) as u8,
            (0x80 + (n / 64) % 64) as u8,
            (0x80 + n % 64) as u8,
        ]
    }
}

/// Appends the hexadecimal digit of `n` to `out`.
fn push_hex_digit(out: &mut String, n: u8)
    requires
        n < 16,
    ensures
        final(out)@ == old(out)@ + seq![hex_digit(n as int)],
{
    let digits = "0123456789ABCDEF";
    proof {
        reveal_strlit("0123456789ABCDEF");
    }
    let d: usize = n as usize;
    let one = digits.substring_char(d, d + 1);
    assert(one@ =~= seq![hex_digit(n as int)]);
    out.append(one);
}

/// Appends the character at `i` of `s` to `out`, as it stands in a URL
/// component.
fn push_escaped(out: &mut String, s: &str, i: usize)
    requires
        i < s@.len() <= usize::MAX,
    ensures
        final(out)@ == old(out)@ + escape_char(s@[i as int]),
{
    let c = s.get_char(i);
    if ('A' <= c && c <= 'Z') || ('a' <= c && c <= 'z') || ('0' <= c && c <= '9') || c == '-'
        || c == '.' || c == '_' || c == '~' {
        let one = s.substring_char(i, i + 1);
        assert(one@ =~= seq![c]);
        out.append(one);
    } else {
        let bytes = utf8_bytes(c);
        let ghost start = out@;
        let mut k: usize = 0;
        while k < bytes.len()
            invariant
                k <= bytes@.len(),
                bytes@ == utf8_of(c),
                out@ == start + percent_bytes(bytes@.subrange(0, k as int)),
            decreases bytes@.len() - k,
        {
            let b = bytes[k];
            out.append("%");
            push_hex_digit(out, b / 16);
            push_hex_digit(out, b % 16);
            proof {
                reveal_strlit("%");
                let next = bytes@.subrange(0, k + 1);
                assert(next.drop_last() =~= bytes@.subrange(0, k as int));
            }
            k = k + 1;
        }
        assert(bytes@.subrange(0, bytes@.len() as int) =~= bytes@);
    }
}

/// Percent-encodes `s` as a URL component: letters, digits and `-._~` stand
/// for themselves, every other character is written as `%XX` for each byte
/// of its UTF-8 encoding.
pub fn escape_component(s: &str) -> (r: String)
    ensures
        r@ == url_escape(s@),
{
    let mut out = String::new();
    let n = s.unicode_len();
    let mut i: usize = 0;
    while i < n
        invariant
            n == s@.len(),
            i <= n,
            out@ == url_escape(s@.subrange(0, i as int)),
        decreases n - i,
    {
        push_escaped(&mut out, s, i);
        proof {
            let next = s@.subrange(0, i + 1);
            assert(next.drop_last() =~= s@.subrange(0, i as int));
        }
        i = i + 1;
    }
    assert(s@.subrange(0, n as int) =~= s@);
    out
}

/// The scopes in order, joined by the separator.
pub fn join_scope_list(scopes: &Vec<String>) -> (r: String)
    ensures
        r@ == join_scopes(scopes_view(scopes@)),
{
    let mut out = String::new();
    let mut i: usize = 0;
    while i < scopes.len()
        invariant
            i <= scopes@.len(),
            out@ == join_scopes(scopes_view(scopes@.subrange(0, i as int))),
        decreases scopes@.len() - i,
    {
        if i > 0 {
            out.append(SCOPE_SEPARATOR);
        }
        out.append(scopes[i].as_str());
        proof {
            let next = scopes_view(scopes@.subrange(0, i + 1));
            assert(next.drop_last() =~= scopes_view(scopes@.subrange(0, i as int)));
            if i == 0 {
                assert(join_scopes(scopes_view(scopes@.subrange(0, 0))) =~= Seq::<char>::empty());
            }
        }
        i = i + 1;
    }
    assert(scopes@.subrange(0, scopes@.len() as int) =~= scopes@);
    out
}

/// The authorization URL: the endpoint with the client id, the code
/// response type, the escaped redirect URI and the joined scopes.
pub fn build_authorization_url(credentials: &ClientCredentials, redirect_uri: &str) -> (r: String)
    ensures
        r@ == authorization_url(credentials.client_id@, redirect_uri@, scopes_view(credentials.scopes@)),
{
    let mut url = String::from_str(AUTHORIZE_ENDPOINT);
    url.append("?client_id=");
    url.append(credentials.client_id.as_str());
    url.append("&response_type=code&redirect_uri=");
    let escaped = escape_component(redirect_uri);
    url.append(escaped.as_str());
    url.append("&scope=");
    let scopes = join_scope_list(&credentials.scopes);
    url.append(scopes.as_str());
    url
}

/// The redirect URI served at the loopback address `addr` (`host:port`).
pub fn callback_uri(addr: &str) -> (r: String)
    ensures
        r@ == callback_uri_of(addr@),
{
    let mut uri = String::from_str("http://");
    uri.append(addr);
    uri.append("/callback");
    uri
}

} // verus!
