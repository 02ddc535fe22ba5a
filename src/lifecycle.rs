use vstd::prelude::*;
use crate::endpoint::{convert_spec, convert_to_websocket};
use crate::handshake::{
    auth_header, header_value_ok, new_handshake, token_ok, upgrade_headers, HandshakeRequest,
};

verus! {

/// How the transport reported a failed handshake.
#[derive(Debug)]
pub enum TransportError {
    /// The peer closed the connection before the handshake completed.
    ConnectionClosed,
    /// The peer broke the protocol; the text describes how.
    Protocol(String),
    /// The peer sent text that is not UTF-8.
    Utf8,
    /// Anything else, described.
    Other(String),
}

/// Why `connect` failed.
#[derive(Debug)]
pub enum ConnectError {
    /// No server has this id.
    ServerNotFound(String),
    /// The server's URL does not give a WebSocket endpoint; the text says why.
    InvalidEndpoint(String),
    /// A header value cannot be sent; the text names the header.
    HandshakeEncoding(String),
    /// The handshake failed in the transport.
    Transport(TransportError),
}

/// The message a caller reads for a transport failure.
pub open spec fn transport_message_spec(e: TransportError) -> Seq<char> {
    match e {
        TransportError::ConnectionClosed => "WebSocket connection was closed"@,
        TransportError::Protocol(p) => "Protocol error: "@ + p@,
        TransportError::Utf8 => "UTF-8 error in WebSocket data"@,
        TransportError::Other(d) => "Unknown error: "@ + d@,
    }
}

/// The message a caller reads for a failed `connect`.
pub open spec fn connect_message_spec(e: ConnectError) -> Seq<char> {
    match e {
        ConnectError::ServerNotFound(id) => "Server with ID "@ + id@ + " not found"@,
        ConnectError::InvalidEndpoint(m) => m@,
        ConnectError::HandshakeEncoding(h) => "Invalid header value: "@ + h@,
        ConnectError::Transport(t) => transport_message_spec(t),
    }
}

fn joined(a: &str, b: &str) -> (r: String)
    ensures
        r@ == a@ + b@,
{
    let mut s = String::from_str(a);
    s.append(b);
    s
}

impl TransportError {
    /// The human-readable message for this failure.
    pub fn message(&self) -> (r: String)
        ensures
            r@ == transport_message_spec(*self),
    {
        match self {
            TransportError::ConnectionClosed => String::from_str("WebSocket connection was closed"),
            TransportError::Protocol(p) => joined("Protocol error: ", p.as_str()),
            TransportError::Utf8 => String::from_str("UTF-8 error in WebSocket data"),
            TransportError::Other(d) => joined("Unknown error: ", d.as_str()),
        }
    }
}

impl ConnectError {
    /// The human-readable message for this failure.
    pub fn message(&self) -> (r: String)
        ensures
            r@ == connect_message_spec(*self),
    {
        match self {
            ConnectError::ServerNotFound(id) => {
                let mut s = joined("Server with ID ", id.as_str());
                s.append(" not found");
                s
            },
            ConnectError::InvalidEndpoint(m) => m.clone(),
            ConnectError::HandshakeEncoding(h) => joined("Invalid header value: ", h.as_str()),
            ConnectError::Transport(t) => t.message(),
        }
    }
}

/// The one place that holds the live connection, if any: its socket handle
/// and the sender of its relay task's cancellation signal.
pub struct ConnectionSlot<S, C> {
    socket: Option<S>,
    cancel: Option<C>,
}

/// What leaves the slot: the cancellation sender to signal, then the socket to close.
pub struct Teardown<S, C> {
    pub cancel: Option<C>,
    pub socket: Option<S>,
}

impl<S, C> Teardown<S, C> {
    pub open spec fn view(&self) -> Option<(S, C)> {
        match (self.socket, self.cancel) {
            (Some(s), Some(c)) => Some((s, c)),
            _ => None,
        }
    }

    /// Both parts are there, or neither.
    pub open spec fn paired(&self) -> bool {
        self.socket is Some == self.cancel is Some
    }
}

/// The slot after a handshake outcome is applied: a new connection replaces
/// what was there; a failure leaves the slot as it was.
pub open spec fn after_outcome<S, C>(before: Option<(S, C)>, outcome: Result<(S, C), TransportError>) -> Option<(S, C)> {
    match outcome {
        Ok(pair) => Some(pair),
        Err(_) => before,
    }
}

impl<S, C> ConnectionSlot<S, C> {
    /// Socket and sender are both present, or both absent.
    pub closed spec fn wf(&self) -> bool {
        self.socket is Some == self.cancel is Some
    }

    /// The live connection held, if any.
    pub closed spec fn view(&self) -> Option<(S, C)> {
        match (self.socket, self.cancel) {
            (Some(s), Some(c)) => Some((s, c)),
            _ => None,
        }
    }

    /// An empty slot.
    pub fn new() -> (r: Self)
        ensures
            r.wf(),
            r@ is None,
    {
        ConnectionSlot { socket: None, cancel: None }
    }

    /// Whether a connection is held.
    pub fn is_connected(&self) -> (r: bool)
        requires
            self.wf(),
        ensures
            r == self@ is Some,
    {
        self.socket.is_some()
    }

    /// Empties the slot and hands out what it held, for the caller to signal
    /// and close. On an empty slot this is a no-op that hands out nothing.
    pub fn disconnect(&mut self) -> (r: Teardown<S, C>)
        requires
            old(self).wf(),
        ensures
            final(self).wf(),
            final(self)@ is None,
            r.paired(),
            r@ == old(self)@,
    {
        let cancel = self.cancel.take();
        let socket = self.socket.take();
        Teardown { cancel, socket }
    }

    /// Puts a new connection in the slot and hands out the one it replaces, if any.
    pub fn install(&mut self, socket: S, cancel: C) -> (r: Teardown<S, C>)
        requires
            old(self).wf(),
        ensures
            final(self).wf(),
            final(self)@ == Some((socket, cancel)),
            r.paired(),
            r@ == old(self)@,
    {
        let old_cancel = self.cancel.take();
        let old_socket = self.socket.take();
        self.cancel = Some(cancel);
        self.socket = Some(socket);
        Teardown { cancel: old_cancel, socket: old_socket }
    }

    /// Applies the outcome of a handshake: a new connection is installed,
    /// handing out whatever it displaced; a failure is reported and the slot
    /// is left exactly as it was.
    pub fn finish_connect(&mut self, outcome: Result<(S, C), TransportError>) -> (r: (
        Result<(), ConnectError>,
        Teardown<S, C>,
    ))
        requires
            old(self).wf(),
        ensures
            final(self).wf(),
            final(self)@ == after_outcome(old(self)@, outcome),
            r.1.paired(),
            outcome is Ok ==> r.0 is Ok && r.1@ == old(self)@,
            outcome matches Err(e) ==> r.0 == Err::<(), ConnectError>(ConnectError::Transport(e))
                && r.1@ is None,
    {
        match outcome {
            Ok((socket, cancel)) => (Ok(()), self.install(socket, cancel)),
            Err(e) => (Err(ConnectError::Transport(e)), Teardown { cancel: None, socket: None }),
        }
    }
}

/// One `connect` as the slot sees it: `disconnect` hands out what the slot
/// held (first of the pair) and empties it, then `finish_connect` applies
/// the handshake outcome, giving the slot's new content (second of the pair).
pub open spec fn connect_step<S, C>(
    before: Option<(S, C)>,
    outcome: Result<(S, C), TransportError>,
) -> (Option<(S, C)>, Option<(S, C)>) {
    (before, after_outcome(None, outcome))
}

/// Connecting twice never leaves two live connections: the second `connect`
/// hands out exactly the first connection (if it was made) for teardown
/// before anything new is installed, and the slot ends holding the second
/// connection if its handshake succeeded, and nothing otherwise.
pub proof fn law_connect_replaces<S, C>(
    start: Option<(S, C)>,
    first: Result<(S, C), TransportError>,
    second: Result<(S, C), TransportError>,
)
    ensures
        ({
            let (out_first, mid) = connect_step(start, first);
            let (out_second, end) = connect_step(mid, second);
            &&& out_first == start
            &&& out_second == match first {
                Ok(pair) => Some(pair),
                Err(_) => None::<(S, C)>,
            }
            &&& end == match second {
                Ok(pair) => Some(pair),
                Err(_) => None::<(S, C)>,
            }
        }),
{
}

/// Everything `connect` decides before the handshake: the server must be
/// known (`endpoint` is its URL, `None` when no server has the id), its URL
/// must give a WebSocket endpoint, and the token, if any, must be a valid
/// header value. Returns the upgrade request to send.
pub fn plan_connect(server_id: &str, endpoint: Option<&str>, token: Option<&str>) -> (r: Result<
    HandshakeRequest,
    ConnectError,
>)
    ensures
        endpoint is None ==> (r matches Err(ConnectError::ServerNotFound(id)) && id@ == server_id@),
        endpoint matches Some(e) ==> match convert_spec(e@) {
            Err(m) => r matches Err(ConnectError::InvalidEndpoint(m2)) && m2@ == m,
            Ok(url) => if token_ok(crate::handshake::opt_str_view(token)) {
                r matches Ok(req) && req.url@ == url && exists|key: Seq<char>|
                    key.len() == 24 && header_value_ok(key) && req.headers_view()
                        == upgrade_headers(key, crate::handshake::opt_str_view(token))
            } else {
                r matches Err(ConnectError::HandshakeEncoding(h)) && h@ == auth_header()
            },
        },
{
    let endpoint = match endpoint {
        None => {
            return Err(ConnectError::ServerNotFound(String::from_str(server_id)));
        },
        Some(e) => e,
    };
    let url = match convert_to_websocket(endpoint) {
        Err(m) => {
            return Err(ConnectError::InvalidEndpoint(m));
        },
        Ok(u) => u,
    };
    match new_handshake(url, token) {
        Ok(req) => Ok(req),
        Err(e) => Err(ConnectError::HandshakeEncoding(e.header)),
    }
}

} // verus!
