use vstd::prelude::*;

verus! {

/// A header as plain text: name and value.
pub type HeaderView = (Seq<char>, Seq<char>);

/// The name of the header that carries a server's access token.
pub open spec fn auth_header() -> Seq<char> {
    "X-API-TOKEN"@
}

/// A character that an HTTP header value may hold: visible ASCII, space,
/// tab, or any non-ASCII character (whose UTF-8 bytes are all above 127).
pub open spec fn header_char_ok(c: char) -> bool {
    (c as u32 >= 32 && c as u32 != 127) || c == '\t'
}

pub open spec fn header_value_ok(s: Seq<char>) -> bool {
    forall|i: int| 0 <= i < s.len() ==> header_char_ok(#[trigger] s[i])
}

/// Relies on http::HeaderValue::from_str, which accepts a string exactly when
/// each of its bytes is a tab, or at least 32 and not 127.
#[verifier::external_body]
fn valid_header_value(s: &str) -> (r: bool)
    ensures
        r == header_value_ok(s@),
{
    http::HeaderValue::from_str(s).is_ok()
}

/// Relies on tungstenite's handshake::client::generate_key: the standard
/// padded base64 text of 16 random bytes: 24 characters, each a letter, a
/// digit, `+`, `/` or `=`, so a valid header value. Two calls may or may not
/// agree; nothing else is promised.
#[verifier::external_body]
fn fresh_key() -> (r: String)
    ensures
        r@.len() == 24,
        header_value_ok(r@),
{
    tungstenite::handshake::client::generate_key()
}

/// The upgrade request that opens a WebSocket session.
pub struct HandshakeRequest {
    pub url: String,
    pub headers: Vec<(String, String)>,
}

pub open spec fn headers_view(hs: Seq<(String, String)>) -> Seq<HeaderView> {
    hs.map_values(|h: (String, String)| (h.0@, h.1@))
}

impl HandshakeRequest {
    pub open spec fn url_view(&self) -> Seq<char> {
        self.url@
    }

    pub open spec fn headers_view(&self) -> Seq<HeaderView> {
        headers_view(self.headers@)
    }
}

/// A header value that cannot be sent; `header` names the header.
#[derive(Debug)]
pub struct HandshakeError {
    pub header: String,
}

/// The headers of an upgrade request: the four protocol headers, then the
/// token header when a token is given.
pub open spec fn upgrade_headers(key: Seq<char>, token: Option<Seq<char>>) -> Seq<HeaderView> {
    let base = seq![
        ("Connection"@, "Upgrade"@),
        ("Upgrade"@, "websocket"@),
        ("Sec-WebSocket-Version"@, "13"@),
        ("Sec-WebSocket-Key"@, key),
    ];
    match token {
        Some(t) => base.push((auth_header(), t)),
        None => base,
    }
}

pub open spec fn token_ok(token: Option<Seq<char>>) -> bool {
    match token {
        Some(t) => header_value_ok(t),
        None => true,
    }
}

/// How many of `hs` are named `name`.
pub open spec fn count_named(hs: Seq<HeaderView>, name: Seq<char>) -> nat
    decreases hs.len(),
{
    if hs.len() == 0 {
        0
    } else {
        count_named(hs.drop_last(), name) + if hs.last().0 == name { 1nat } else { 0nat }
    }
}

fn push_header(hs: &mut Vec<(String, String)>, name: &str, value: &str)
    ensures
        headers_view(final(hs)@) == headers_view(old(hs)@).push((name@, value@)),
{
    hs.push((String::from_str(name), String::from_str(value)));
    assert(headers_view(final(hs)@) =~= headers_view(old(hs)@).push((name@, value@)));
}

/// Builds the upgrade request for `url` with the nonce `key` and, if given,
/// the access token. Fails when the key or the token cannot be a header value.
pub fn build_handshake(url: String, key: &str, token: Option<&str>) -> (r: Result<
    HandshakeRequest,
    HandshakeError,
>)
    ensures
        r is Ok <==> header_value_ok(key@) && token_ok(opt_str_view(token)),
        r matches Ok(req) ==> req.url@ == url@ && req.headers_view() == upgrade_headers(
            key@,
            opt_str_view(token),
        ),
        r matches Err(e) ==> (e.header@ == "Sec-WebSocket-Key"@ && !header_value_ok(key@)) || (
        e.header@ == auth_header() && header_value_ok(key@)),
{
    if !valid_header_value(key) {
        return Err(HandshakeError { header: String::from_str("Sec-WebSocket-Key") });
    }
    let mut headers: Vec<(String, String)> = Vec::new();
    push_header(&mut headers, "Connection", "Upgrade");
    push_header(&mut headers, "Upgrade", "websocket");
    push_header(&mut headers, "Sec-WebSocket-Version", "13");
    push_header(&mut headers, "Sec-WebSocket-Key", key);
    proof {
        assert(headers_view(headers@) =~= upgrade_headers(key@, None));
    }
    match token {
        Some(t) => {
            if !valid_header_value(t) {
                return Err(HandshakeError { header: String::from_str("X-API-TOKEN") });
            }
            push_header(&mut headers, "X-API-TOKEN", t);
        },
        None => {},
    }
    Ok(HandshakeRequest { url, headers })
}

pub open spec fn opt_str_view(o: Option<&str>) -> Option<Seq<char>> {
    match o {
        Some(s) => Some(s@),
        None => None,
    }
}

/// Builds the upgrade request for `url` with a freshly generated nonce.
pub fn new_handshake(url: String, token: Option<&str>) -> (r: Result<
    HandshakeRequest,
    HandshakeError,
>)
    ensures
        r is Ok <==> token_ok(opt_str_view(token)),
        r matches Ok(req) ==> req.url@ == url@ && exists|key: Seq<char>|
            key.len() == 24 && header_value_ok(key) && req.headers_view() == upgrade_headers(
                key,
                opt_str_view(token),
            ),
        r matches Err(e) ==> e.header@ == auth_header(),
{
    let key = fresh_key();
    build_handshake(url, key.as_str(), token)
}

/// A request built without a token has no token header; one built with a
/// token has exactly one, and it carries the token verbatim.
pub proof fn law_auth_header(key: Seq<char>, token: Option<Seq<char>>)
    ensures
        token is None ==> count_named(upgrade_headers(key, token), auth_header()) == 0,
        token matches Some(t) ==> count_named(upgrade_headers(key, token), auth_header()) == 1
            && upgrade_headers(key, token).contains((auth_header(), t)),
{
    reveal_strlit("Connection");
    reveal_strlit("Upgrade");
    reveal_strlit("Sec-WebSocket-Version");
    reveal_strlit("Sec-WebSocket-Key");
    reveal_strlit("X-API-TOKEN");
    let base = upgrade_headers(key, None);
    assert(base.drop_last().drop_last().drop_last().drop_last() =~= seq![]);
    assert(base[0].0.len() != auth_header().len());
    assert(base[1].0.len() != auth_header().len());
    assert(base[2].0.len() != auth_header().len());
    assert(base[3].0.len() != auth_header().len());
    assert(count_named(base, auth_header()) == 0) by {
        reveal_with_fuel(count_named, 5);
    }
    if let Some(t) = token {
        let full = upgrade_headers(key, token);
        assert(full.drop_last() =~= base);
        assert(full[4] == (auth_header(), t));
    }
}

} // verus!
