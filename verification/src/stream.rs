//! Streams that may be wrapped with TLS, and what is known of a connection.

use vstd::prelude::*;

use crate::connect::ConnectRequest;
use crate::tls_info::{extract_tls_info, session_details, SslState, TlsInfo, TlsInfoFactory};

verus! {

/// What is known of a connection once it is made.
#[derive(Debug)]
pub struct Connected {
    /// Whether HTTP/2 was negotiated.
    pub alpn_h2: bool,
    /// TLS information that was attached to the connection.
    pub tls_info: Option<TlsInfo>,
}

impl Connected {
    /// The same connection with HTTP/2 negotiated.
    pub open spec fn with_h2(self) -> Connected {
        Connected { alpn_h2: true, ..self }
    }

    /// A connection of which nothing is known.
    pub fn new() -> (r: Connected)
        ensures
            r == (Connected { alpn_h2: false, tls_info: None }),
    {
        Connected { alpn_h2: false, tls_info: None }
    }

    /// Notes that HTTP/2 was negotiated.
    pub fn negotiated_h2(self) -> (r: Connected)
        ensures
            r == self.with_h2(),
    {
        Connected { alpn_h2: true, ..self }
    }
}

/// Connections that say what is known of them.
pub trait Connection {
    fn connected(&self) -> Connected;
}

/// A TLS stream over another stream: that stream, and what its session shows.
pub struct SslStream<T> {
    pub stream: T,
    pub ssl: SslState,
}

/// A stream which may be wrapped with TLS.
pub enum MaybeHttpsStream<T> {
    /// A raw HTTP stream.
    Http(T),
    /// An SSL-wrapped HTTP stream.
    Https(SslStream<T>),
}

/// A connection that has been established with a TLS handshake.
pub struct EstablishedConn<IO, K> {
    pub io: IO,
    pub req: ConnectRequest<K>,
}

/// The name of HTTP/2 in ALPN.
pub open spec fn h2_name() -> Seq<u8> {
    seq![104u8, 50u8]
}

/// Whether a session selected HTTP/2.
pub open spec fn selected_h2(ssl: SslState) -> bool {
    match ssl.selected_alpn_protocol {
        Some(protocol) => protocol@ == h2_name(),
        None => false,
    }
}

/// What is known of a TLS connection, from what is known of the one underneath.
pub open spec fn known_over_tls(underneath: Connected, ssl: SslState) -> Connected {
    if selected_h2(ssl) {
        underneath.with_h2()
    } else {
        underneath
    }
}

/// What is known of a TLS connection, from what is known of the one underneath:
/// in addition, whether HTTP/2 was negotiated.
pub fn connected_over_tls(underneath: Connected, ssl: &SslState) -> (r: Connected)
    ensures
        r == known_over_tls(underneath, *ssl),
{
    let h2 = match &ssl.selected_alpn_protocol {
        Some(protocol) => protocol.len() == 2 && protocol[0] == 104 && protocol[1] == 50,
        None => false,
    };
    proof {
        if h2 {
            assert(ssl.selected_alpn_protocol->0@ =~= h2_name());
        }
    }
    if h2 {
        underneath.negotiated_h2()
    } else {
        underneath
    }
}

impl<T> SslStream<T> {
    /// Returns a reference to the underlying stream.
    pub fn get_ref(&self) -> (r: &T)
        ensures
            *r == self.stream,
    {
        &self.stream
    }
}

impl<T> MaybeHttpsStream<T> {
    /// The underlying stream.
    pub open spec fn underlying(self) -> T {
        match self {
            MaybeHttpsStream::Http(s) => s,
            MaybeHttpsStream::Https(s) => s.stream,
        }
    }

    /// Returns a reference to the underlying stream.
    pub fn get_ref(&self) -> (r: &T)
        ensures
            *r == self.underlying(),
    {
        match self {
            MaybeHttpsStream::Http(s) => s,
            MaybeHttpsStream::Https(s) => s.get_ref(),
        }
    }

    /// How the stream shows in debug output.
    pub fn debug_text(&self) -> (r: &'static str)
        ensures
            r@ == (match self {
                MaybeHttpsStream::Http(_) => "Http(..)"@,
                MaybeHttpsStream::Https(_) => "Https(..)"@,
            }),
    {
        match self {
            MaybeHttpsStream::Http(_) => "Http(..)",
            MaybeHttpsStream::Https(_) => "Https(..)",
        }
    }
}

impl<T: Connection> Connection for MaybeHttpsStream<T> {
    fn connected(&self) -> (r: Connected)
        ensures
            match self {
                MaybeHttpsStream::Http(s) => call_ensures(T::connected, (s,), r),
                MaybeHttpsStream::Https(s) => exists|underneath: Connected|
                    #[trigger] call_ensures(T::connected, (&s.stream,), underneath) && r
                        == known_over_tls(underneath, s.ssl),
            },
    {
        match self {
            MaybeHttpsStream::Http(s) => s.connected(),
            MaybeHttpsStream::Https(s) => {
                let underneath = s.get_ref().connected();
                connected_over_tls(underneath, &s.ssl)
            },
        }
    }
}

impl<T> TlsInfoFactory for SslStream<T> {
    fn tls_info(&self) -> (r: Option<TlsInfo>)
        ensures
            r is Some,
            r->0@ == session_details(self.ssl),
    {
        Some(extract_tls_info(&self.ssl))
    }
}

impl<T> TlsInfoFactory for MaybeHttpsStream<T> {
    fn tls_info(&self) -> (r: Option<TlsInfo>)
        ensures
            r is Some <==> self is Https,
            r matches Some(info) ==> info@ == session_details(self->Https_0.ssl),
    {
        match self {
            MaybeHttpsStream::Https(tls) => tls.tls_info(),
            MaybeHttpsStream::Http(_) => None,
        }
    }
}

impl<IO, K> EstablishedConn<IO, K> {
    /// Creates a new [`EstablishedConn`].
    pub fn new(io: IO, req: ConnectRequest<K>) -> (r: EstablishedConn<IO, K>)
        ensures
            r.io == io,
            r.req == req,
    {
        EstablishedConn { io, req }
    }
}

/// TLS adds only whether HTTP/2 was negotiated: it never takes that back, and it
/// leaves the TLS information of the connection underneath alone.
pub proof fn law_tls_only_adds_h2(underneath: Connected, ssl: SslState)
    ensures
        known_over_tls(underneath, ssl).tls_info == underneath.tls_info,
        known_over_tls(underneath, ssl).alpn_h2 <==> (underneath.alpn_h2 || selected_h2(ssl)),
{
}

/// HTTP/2 counts as negotiated on a TLS connection exactly if it does on the one
/// underneath or the session selected `h2`, to the byte; nothing else changes.
pub proof fn law_h2_is_what_was_selected(underneath: Connected, ssl: SslState)
    ensures
        known_over_tls(underneath, ssl).alpn_h2 <==> (underneath.alpn_h2 || (
        ssl.selected_alpn_protocol matches Some(protocol) && protocol@.len() == 2 && protocol@[0]
            == 104 && protocol@[1] == 50)),
        known_over_tls(underneath, ssl).tls_info == underneath.tls_info,
        underneath.with_h2().alpn_h2,
        underneath.with_h2().tls_info == underneath.tls_info,
{
    if let Some(protocol) = ssl.selected_alpn_protocol {
        if protocol@.len() == 2 && protocol@[0] == 104 && protocol@[1] == 50 {
            assert(protocol@ =~= h2_name());
        }
    }
}

/// The stream underneath is the one that was wrapped, with TLS or without.
pub proof fn law_wrapping_keeps_the_stream<T>(stream: T, ssl: SslState)
    ensures
        MaybeHttpsStream::Http(stream).underlying() == stream,
        MaybeHttpsStream::Https(SslStream { stream, ssl }).underlying() == stream,
{
}

} // verus!
