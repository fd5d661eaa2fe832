//! The decisions of a TLS client connector: which settings a context and a
//! connection get and in which order, what of a handshake is captured, and
//! what is reported of a connection and of a failure.
//!
//! The TLS engine itself is driven by the caller. This crate hands out the
//! calls to make one after the other and is told how each of them went.

pub mod alpn;
pub mod capture;
pub mod config;
pub mod connect;
pub mod connect_laws;
pub mod context;
pub mod context_laws;
pub mod error;
pub mod host;
pub mod options;
pub mod queue;
pub mod sessions;
pub mod shared;
pub mod stream;
pub mod tls_info;

pub use alpn::{AlpnProtocol, AlpsProtocol};
pub use capture::{
    may_be_captured, server_hello_msg_callback, verify_peer, Certificate, HandshakeCapture, Slot,
};
pub use config::{HandshakeConfig, HandshakeConfigBuilder};
pub use connect::{
    CallOutcome, ConnectRequest, ConnectStep, ConnectionSetup, HttpsConnector, Inner, SetupStatus,
    TlsConnector,
};
pub use context::{ContextSetup, ContextStep, SwitchOff, TlsConnectorBuilder};
pub use error::{Cause, ClientConnectError, Error, ErrorKind, SourceError, TrySendError};
pub use host::{
    bracketed_part, has_readable_host, host_to_connect_to, normalize_host, strip_brackets, uri_host,
};
pub use options::{CertificateCompressionAlgorithm, ExtensionType, TlsOptions, TlsVersion};
pub use stream::{Connected, Connection, EstablishedConn, MaybeHttpsStream, SslStream};
pub use tls_info::{extract_tls_info, SslState, TlsInfo, TlsInfoFactory};
