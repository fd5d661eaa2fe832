//! Failures of a client, and what is known of the connection they came from.

use bytes::Bytes;
use vstd::prelude::*;
use vstd::string::StringExecFns;

use crate::stream::Connected;
use crate::tls_info::{copy_maybe_list, maybe_all_octets};

verus! {

/// What went wrong.
#[derive(Debug, Clone, Copy, PartialEq, Eq, Structural)]
pub enum ErrorKind {
    Canceled,
    ChannelClosed,
    Connect,
    ProxyConnect,
    UserUnsupportedRequestMethod,
    UserUnsupportedVersion,
    UserAbsoluteUriRequired,
    SendRequest,
}

/// Where the error behind a failure comes from.
#[derive(Debug, Clone, Copy, PartialEq, Eq, Structural)]
pub enum Cause {
    /// The tunnel through a proxy.
    Tunnel,
    /// The connection to a proxy.
    ProxyConnect,
    /// The SOCKS handshake with a proxy.
    Socks,
    /// Anything else.
    Other,
}

/// The error behind a failure, where it comes from, and the certificate chain that
/// it carries, if it carries one.
#[derive(Debug)]
pub struct SourceError<E> {
    pub error: E,
    pub cause: Cause,
    pub captured_chain_der: Option<Vec<Bytes>>,
}

/// A failure of a client. `E` is the error behind it.
#[derive(Debug)]
pub struct Error<E> {
    pub kind: ErrorKind,
    pub source: Option<E>,
    pub connect_info: Option<Connected>,
    pub captured_chain_der: Option<Vec<Bytes>>,
}

/// What an [`Error`] holds.
#[verifier::ext_equal]
pub struct ErrorDetails<E> {
    pub kind: ErrorKind,
    pub source: Option<E>,
    pub connect_info: Option<Connected>,
    pub captured_chain_der: Option<Seq<Seq<u8>>>,
}

impl<E> View for Error<E> {
    type V = ErrorDetails<E>;

    open spec fn view(&self) -> ErrorDetails<E> {
        ErrorDetails {
            kind: self.kind,
            source: self.source,
            connect_info: self.connect_info,
            captured_chain_der: maybe_all_octets(self.captured_chain_der),
        }
    }
}

/// A failure to get a connection. `P` is a failure of the pool.
pub enum ClientConnectError<E, P> {
    Normal(Error<E>),
    CheckoutIsClosed(P),
}

/// A failure to send a request `R`.
pub enum TrySendError<E, R> {
    Retryable { error: Error<E>, req: R, connection_reused: bool },
    Nope(Error<E>),
}

/// The kind of a failure: whatever comes from a proxy is a failure to connect to
/// the proxy.
pub open spec fn effective_kind(kind: ErrorKind, cause: Cause) -> ErrorKind {
    if cause == Cause::Other {
        kind
    } else {
        ErrorKind::ProxyConnect
    }
}

/// A failure with an error behind it.
pub open spec fn failure<E>(kind: ErrorKind, source: SourceError<E>) -> ErrorDetails<E> {
    ErrorDetails {
        kind: effective_kind(kind, source.cause),
        source: Some(source.error),
        connect_info: None,
        captured_chain_der: maybe_all_octets(source.captured_chain_der),
    }
}

/// The chain that was attached to a connection.
pub open spec fn attached_chain(connect_info: Connected) -> Option<Seq<Seq<u8>>> {
    match connect_info.tls_info {
        Some(info) => info@.captured_chain_der,
        None => None,
    }
}

impl<E> ErrorDetails<E> {
    /// The failure with the connection that it occurred on; it takes over the chain
    /// of the connection unless it carries one already.
    pub open spec fn on_connection(self, connect_info: Connected) -> ErrorDetails<E> {
        ErrorDetails {
            connect_info: Some(connect_info),
            captured_chain_der: if self.captured_chain_der is Some {
                self.captured_chain_der
            } else {
                attached_chain(connect_info)
            },
            ..self
        }
    }
}

/// The name of a kind.
pub open spec fn kind_name(kind: ErrorKind) -> Seq<char> {
    match kind {
        ErrorKind::Canceled => "Canceled"@,
        ErrorKind::ChannelClosed => "ChannelClosed"@,
        ErrorKind::Connect => "Connect"@,
        ErrorKind::ProxyConnect => "ProxyConnect"@,
        ErrorKind::UserUnsupportedRequestMethod => "UserUnsupportedRequestMethod"@,
        ErrorKind::UserUnsupportedVersion => "UserUnsupportedVersion"@,
        ErrorKind::UserAbsoluteUriRequired => "UserAbsoluteUriRequired"@,
        ErrorKind::SendRequest => "SendRequest"@,
    }
}

impl ErrorKind {
    /// The name of the kind.
    pub fn name(self) -> (r: &'static str)
        ensures
            r@ == kind_name(self),
    {
        match self {
            ErrorKind::Canceled => "Canceled",
            ErrorKind::ChannelClosed => "ChannelClosed",
            ErrorKind::Connect => "Connect",
            ErrorKind::ProxyConnect => "ProxyConnect",
            ErrorKind::UserUnsupportedRequestMethod => "UserUnsupportedRequestMethod",
            ErrorKind::UserUnsupportedVersion => "UserUnsupportedVersion",
            ErrorKind::UserAbsoluteUriRequired => "UserAbsoluteUriRequired",
            ErrorKind::SendRequest => "SendRequest",
        }
    }
}

impl<E> Error<E> {
    /// A failure of a kind with an error behind it.
    pub fn new(kind: ErrorKind, source: SourceError<E>) -> (r: Self)
        ensures
            r@ == failure(kind, source),
    {
        let kind = match source.cause {
            Cause::Tunnel | Cause::ProxyConnect | Cause::Socks => ErrorKind::ProxyConnect,
            Cause::Other => kind,
        };
        Error {
            kind,
            source: Some(source.error),
            connect_info: None,
            captured_chain_der: source.captured_chain_der,
        }
    }

    /// A failure of a kind with no error behind it.
    pub fn new_kind(kind: ErrorKind) -> (r: Self)
        ensures
            r@ == (ErrorDetails::<E> {
                kind,
                source: None,
                connect_info: None,
                captured_chain_der: None,
            }),
    {
        Error { kind, source: None, connect_info: None, captured_chain_der: None }
    }

    /// The text that is shown for the failure.
    pub fn message(&self) -> (r: String)
        ensures
            r@ == "client error ("@ + kind_name(self.kind) + ")"@,
    {
        let mut text: String = String::from_str("client error (");
        text.append(self.kind.name());
        text.append(")");
        text
    }

    /// The error behind the failure.
    pub fn source(&self) -> (r: Option<&E>)
        ensures
            r == (match self.source {
                Some(error) => Some(&error),
                None => None,
            }),
    {
        self.source.as_ref()
    }

    /// Returns true if this was an error from [`ErrorKind::Connect`].
    pub fn is_connect(&self) -> (r: bool)
        ensures
            r <==> self.kind == ErrorKind::Connect,
    {
        matches!(self.kind, ErrorKind::Connect)
    }

    /// Returns true if this was an error from [`ErrorKind::ProxyConnect`].
    pub fn is_proxy_connect(&self) -> (r: bool)
        ensures
            r <==> self.kind == ErrorKind::ProxyConnect,
    {
        matches!(self.kind, ErrorKind::ProxyConnect)
    }

    /// Returns the info of the client connection on which this error occurred.
    pub fn connect_info(&self) -> (r: Option<&Connected>)
        ensures
            r == (match self.connect_info {
                Some(info) => Some(&info),
                None => None,
            }),
    {
        self.connect_info.as_ref()
    }

    /// The certificate chain that was captured before the failure.
    pub fn captured_chain_der(&self) -> (r: Option<&Vec<Bytes>>)
        ensures
            r == (match self.captured_chain_der {
                Some(chain) => Some(&chain),
                None => None,
            }),
    {
        self.captured_chain_der.as_ref()
    }

    /// The failure with the connection that it occurred on.
    pub fn with_connect_info(self, connect_info: Connected) -> (r: Self)
        ensures
            r@ == self@.on_connection(connect_info),
    {
        let captured_chain_der = match self.captured_chain_der {
            Some(chain) => Some(chain),
            None => match &connect_info.tls_info {
                Some(info) => copy_maybe_list(&info.captured_chain_der),
                None => None,
            },
        };
        Error {
            kind: self.kind,
            source: self.source,
            connect_info: Some(connect_info),
            captured_chain_der,
        }
    }

    /// Returns true if the request was canceled.
    pub fn is_canceled(&self) -> (r: bool)
        ensures
            r <==> self.kind == ErrorKind::Canceled,
    {
        matches!(self.kind, ErrorKind::Canceled)
    }

    /// A failure to send a request.
    pub fn tx(src: SourceError<E>) -> (r: Self)
        ensures
            r@ == failure(ErrorKind::SendRequest, src),
    {
        Self::new(ErrorKind::SendRequest, src)
    }

    /// A failure because the connection was closed.
    pub fn closed(src: SourceError<E>) -> (r: Self)
        ensures
            r@ == failure(ErrorKind::ChannelClosed, src),
    {
        Self::new(ErrorKind::ChannelClosed, src)
    }
}

/// An error that comes from a proxy makes a proxy failure of every kind; any other
/// error leaves the kind as it is.
pub proof fn law_errors_of_a_proxy_are_proxy_failures<E>(kind: ErrorKind, source: SourceError<E>)
    ensures
        source.cause != Cause::Other ==> failure(kind, source).kind == ErrorKind::ProxyConnect,
        source.cause == Cause::Other ==> failure(kind, source).kind == kind,
{
}

/// A chain that a failure carries is never replaced by that of a connection.
pub proof fn law_carried_chain_is_kept<E>(error: ErrorDetails<E>, connect_info: Connected)
    requires
        error.captured_chain_der is Some,
    ensures
        error.on_connection(connect_info).captured_chain_der == error.captured_chain_der,
{
}

/// A failure that carries no chain reports the one that was captured on its
/// connection; nothing else of it changes but the connection.
pub proof fn law_chain_of_the_connection_is_taken_over<E>(
    error: ErrorDetails<E>,
    connect_info: Connected,
)
    requires
        error.captured_chain_der is None,
    ensures
        error.on_connection(connect_info).captured_chain_der == attached_chain(connect_info),
        error.on_connection(connect_info).kind == error.kind,
        error.on_connection(connect_info).source == error.source,
        error.on_connection(connect_info).connect_info == Some(connect_info),
{
}

/// Once a failure has a chain, a second connection changes the connection only.
pub proof fn law_first_chain_wins<E>(error: ErrorDetails<E>, first: Connected, second: Connected)
    requires
        error.on_connection(first).captured_chain_der is Some,
    ensures
        error.on_connection(first).on_connection(second) == (ErrorDetails {
            connect_info: Some(second),
            ..error.on_connection(first)
        }),
{
}

/// A failure on a connection whose chain was captured reports that chain, unless
/// it carries one of its own.
pub proof fn law_captured_chain_survives_a_failure<E>(
    error: ErrorDetails<E>,
    connect_info: Connected,
    ssl: crate::tls_info::SslState,
)
    requires
        error.captured_chain_der is None,
        connect_info.tls_info is Some,
        connect_info.tls_info->0@ == crate::tls_info::session_details(ssl),
    ensures
        error.on_connection(connect_info).captured_chain_der
            == ssl.capture@.captured_chain_der.get(),
{
}

/// A failure holds the error behind it and the chain that this error carries, and knows
/// of no connection yet. It is a proxy failure exactly if the error comes from a tunnel,
/// a proxy or a SOCKS handshake, or if it is told to be one.
pub proof fn law_failure_holds_its_error<E>(kind: ErrorKind, source: SourceError<E>)
    ensures
        ({
            let error = failure(kind, source);
            let of_proxy = source.cause == Cause::Tunnel || source.cause == Cause::ProxyConnect
                || source.cause == Cause::Socks;
            &&& error.source == Some(source.error)
            &&& error.connect_info is None
            &&& error.captured_chain_der == maybe_all_octets(source.captured_chain_der)
            &&& of_proxy ==> error.kind == ErrorKind::ProxyConnect
            &&& !of_proxy ==> error.kind == kind
        }),
{
}

/// A failure on a connection keeps its kind and its error and takes the connection; its
/// chain is the one that it carries, else the one that was captured on the connection,
/// and none if there is neither.
pub proof fn law_failure_takes_the_connection<E>(error: ErrorDetails<E>, connect_info: Connected)
    ensures
        ({
            let on_connection = error.on_connection(connect_info);
            &&& on_connection.kind == error.kind
            &&& on_connection.source == error.source
            &&& on_connection.connect_info == Some(connect_info)
            &&& error.captured_chain_der is Some ==> on_connection.captured_chain_der
                == error.captured_chain_der
            &&& error.captured_chain_der is None && connect_info.tls_info is None
                ==> on_connection.captured_chain_der is None
            &&& error.captured_chain_der is None && connect_info.tls_info is Some
                ==> on_connection.captured_chain_der == maybe_all_octets(
                connect_info.tls_info->0.captured_chain_der,
            )
        }),
{
}

/// A failure shows what it holds, field by field.
pub proof fn law_failure_shows_what_it_holds<E>(error: Error<E>)
    ensures
        error@.kind == error.kind,
        error@.source == error.source,
        error@.connect_info == error.connect_info,
        error@.captured_chain_der == maybe_all_octets(error.captured_chain_der),
{
}

/// Every kind of failure is shown by its own name.
pub proof fn law_kinds_are_shown_by_their_names(kind: ErrorKind)
    ensures
        kind == ErrorKind::Canceled ==> kind_name(kind) == "Canceled"@,
        kind == ErrorKind::ChannelClosed ==> kind_name(kind) == "ChannelClosed"@,
        kind == ErrorKind::Connect ==> kind_name(kind) == "Connect"@,
        kind == ErrorKind::ProxyConnect ==> kind_name(kind) == "ProxyConnect"@,
        kind == ErrorKind::UserUnsupportedRequestMethod ==> kind_name(kind)
            == "UserUnsupportedRequestMethod"@,
        kind == ErrorKind::UserUnsupportedVersion ==> kind_name(kind) == "UserUnsupportedVersion"@,
        kind == ErrorKind::UserAbsoluteUriRequired ==> kind_name(kind)
            == "UserAbsoluteUriRequired"@,
        kind == ErrorKind::SendRequest ==> kind_name(kind) == "SendRequest"@,
{
}

} // verus!
