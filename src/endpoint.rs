use vstd::prelude::*;
use crate::text::{decimal, push_decimal, same_text};

verus! {

/// What the endpoint logic reads of a parsed server URL.
pub struct UrlParts {
    pub scheme: String,
    pub host: Option<String>,
    /// The port written in the URL, unless it is the scheme's default.
    pub port: Option<u16>,
    /// The written port, or else the scheme's well-known default, if any.
    pub known_port: Option<u16>,
}

/// The plain-value view of [`UrlParts`]: scheme, host, port, known port.
pub type UrlView = (Seq<char>, Option<Seq<char>>, Option<u16>, Option<u16>);

pub open spec fn opt_view(o: Option<String>) -> Option<Seq<char>> {
    match o {
        Some(s) => Some(s@),
        None => None,
    }
}

impl UrlParts {
    pub open spec fn view(&self) -> UrlView {
        (self.scheme@, opt_view(self.host), self.port, self.known_port)
    }

    /// How the two ports relate: the known port is the written one, or the
    /// default of `http` (80) or `https` (443) where none is written.
    pub open spec fn wf(&self) -> bool {
        &&& self.port is Some ==> self.known_port == self.port
        &&& (self.port is None && self.scheme@ == "https"@) ==> self.known_port == Some(443u16)
        &&& (self.port is None && self.scheme@ == "http"@) ==> self.known_port == Some(80u16)
    }
}

/// What url::Url::parse makes of a string: its view as parts, or the error's message.
pub uninterp spec fn parsed_url(s: Seq<char>) -> Result<UrlView, Seq<char>>;

/// Relies on url::Url::parse, read back through its accessors `scheme`,
/// `host_str`, `port` and `port_or_known_default`. The result depends on the
/// text alone; `port_or_known_default` returns the written port when there is
/// one, else 80 for `http` and 443 for `https`.
#[verifier::external_body]
fn parse_url(s: &str) -> (r: Result<UrlParts, String>)
    ensures
        match r {
            Ok(p) => parsed_url(s@) == Ok::<UrlView, Seq<char>>(p@) && p.wf(),
            Err(e) => parsed_url(s@) == Err::<UrlView, Seq<char>>(e@),
        },
{
    match url::Url::parse(s) {
        Ok(u) => Ok(UrlParts {
            scheme: u.scheme().to_string(),
            host: u.host_str().map(|h| h.to_string()),
            port: u.port(),
            known_port: u.port_or_known_default(),
        }),
        Err(e) => Err(e.to_string()),
    }
}

pub open spec fn is_secure(v: UrlView) -> bool {
    v.0 == "https"@
}

/// The conventional port of the WebSocket scheme chosen for `v`.
pub open spec fn ws_default_port(v: UrlView) -> u16 {
    if is_secure(v) { 443u16 } else { 80u16 }
}

/// The port the endpoint points at.
pub open spec fn effective_port(v: UrlView) -> u16 {
    match v.3 {
        Some(p) => p,
        None => ws_default_port(v),
    }
}

pub open spec fn ws_prefix(v: UrlView) -> Seq<char> {
    if is_secure(v) { "wss://"@ } else { "ws://"@ }
}

/// The WebSocket endpoint for a server URL: `wss://` for `https` and `ws://`
/// otherwise, the host verbatim, the port only where it is not the
/// WebSocket scheme's default, and always the path `/ws`.
pub open spec fn ws_endpoint_of(v: UrlView) -> Result<Seq<char>, Seq<char>> {
    match v.1 {
        None => Err("No host found in URL"@),
        Some(host) => if effective_port(v) == ws_default_port(v) {
            Ok(ws_prefix(v) + host + "/ws"@)
        } else {
            Ok(ws_prefix(v) + host + ":"@ + decimal(effective_port(v) as nat) + "/ws"@)
        },
    }
}

/// The endpoint for a URL string, or why there is none.
pub open spec fn convert_spec(s: Seq<char>) -> Result<Seq<char>, Seq<char>> {
    match parsed_url(s) {
        Err(e) => Err("Invalid URL: "@ + e),
        Ok(v) => ws_endpoint_of(v),
    }
}

pub open spec fn result_view(r: Result<String, String>) -> Result<Seq<char>, Seq<char>> {
    match r {
        Ok(s) => Ok(s@),
        Err(e) => Err(e@),
    }
}

/// Builds the WebSocket endpoint from the parts of a parsed server URL.
pub fn websocket_endpoint(parts: &UrlParts) -> (r: Result<String, String>)
    ensures
        result_view(r) == ws_endpoint_of(parts@),
{
    let host = match &parts.host {
        None => {
            return Err(String::from_str("No host found in URL"));
        },
        Some(h) => h,
    };
    let secure = same_text(parts.scheme.as_str(), "https");
    let default_port: u16 = if secure { 443 } else { 80 };
    let port: u16 = match parts.known_port {
        Some(p) => p,
        None => default_port,
    };
    let mut out = if secure { String::from_str("wss://") } else { String::from_str("ws://") };
    out.append(host.as_str());
    if port != default_port {
        out.append(":");
        push_decimal(&mut out, port);
    }
    out.append("/ws");
    proof {
        reveal_strlit("wss://");
        reveal_strlit("ws://");
    }
    Ok(out)
}

/// Derives the WebSocket endpoint of a server from its HTTP(S) URL.
pub fn convert_to_websocket(endpoint: &str) -> (r: Result<String, String>)
    ensures
        result_view(r) == convert_spec(endpoint@),
{
    match parse_url(endpoint) {
        Err(e) => {
            let mut msg = String::from_str("Invalid URL: ");
            msg.append(e.as_str());
            Err(msg)
        },
        Ok(parts) => websocket_endpoint(&parts),
    }
}

/// A parsed `https` URL without a written port gives `wss://<host>/ws`.
pub proof fn law_https_default_port(parts: UrlParts)
    requires
        parts.wf(),
        parts.scheme@ == "https"@,
        parts.port is None,
        parts.host is Some,
    ensures
        ws_endpoint_of(parts@) == Ok::<Seq<char>, Seq<char>>(
            "wss://"@ + parts.host->0@ + "/ws"@),
{
}

/// A parsed `http` URL with a written port other than 80 keeps that port.
pub proof fn law_http_explicit_port(parts: UrlParts)
    requires
        parts.wf(),
        parts.scheme@ == "http"@,
        parts.port is Some,
        parts.port->0 != 80,
        parts.host is Some,
    ensures
        ws_endpoint_of(parts@) == Ok::<Seq<char>, Seq<char>>(
            "ws://"@ + parts.host->0@ + ":"@ + decimal(parts.port->0 as nat) + "/ws"@),
{
    reveal_strlit("http");
    reveal_strlit("https");
    assert(parts.scheme@ != "https"@) by {
        assert(parts.scheme@.len() != "https"@.len());
    }
}

} // verus!
