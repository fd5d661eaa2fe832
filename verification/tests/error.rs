use bytes::Bytes;
use wreq_tls::{Cause, Connected, Error, ErrorKind, SourceError, TlsInfo};

const KINDS: [ErrorKind; 8] = [
    ErrorKind::Canceled,
    ErrorKind::ChannelClosed,
    ErrorKind::Connect,
    ErrorKind::ProxyConnect,
    ErrorKind::UserUnsupportedRequestMethod,
    ErrorKind::UserUnsupportedVersion,
    ErrorKind::UserAbsoluteUriRequired,
    ErrorKind::SendRequest,
];

fn source(cause: Cause, chain: Option<Vec<Bytes>>) -> SourceError<&'static str> {
    SourceError { error: "boom", cause, captured_chain_der: chain }
}

fn chain(der: &'static [u8]) -> Option<Vec<Bytes>> {
    Some(vec![Bytes::from_static(der)])
}

fn connection(captured: Option<Vec<Bytes>>) -> Connected {
    Connected {
        alpn_h2: true,
        tls_info: Some(TlsInfo {
            peer_certificate: None,
            peer_certificate_chain: None,
            captured_chain_der: captured,
            server_hello: None,
            encrypted_extensions: None,
        }),
    }
}

#[test]
fn errors_of_a_proxy_are_proxy_failures() {
    for kind in KINDS {
        for cause in [Cause::Tunnel, Cause::ProxyConnect, Cause::Socks] {
            assert!(Error::new(kind, source(cause, None)).is_proxy_connect());
        }
        let error = Error::new(kind, source(Cause::Other, None));
        assert_eq!(error.kind, kind);
        assert_eq!(error.is_connect(), kind == ErrorKind::Connect);
        assert_eq!(error.is_proxy_connect(), kind == ErrorKind::ProxyConnect);
        assert_eq!(error.is_canceled(), kind == ErrorKind::Canceled);
    }
}

#[test]
fn failure_carries_its_source_and_chain() {
    let error = Error::new(ErrorKind::Connect, source(Cause::Other, chain(b"leaf")));
    assert_eq!(error.source(), Some(&"boom"));
    assert_eq!(error.captured_chain_der().cloned(), chain(b"leaf"));
    assert!(error.connect_info().is_none());
}

#[test]
fn failure_of_a_kind_alone_carries_nothing() {
    let error: Error<&str> = Error::new_kind(ErrorKind::Canceled);
    assert!(error.is_canceled());
    assert!(error.source().is_none());
    assert!(error.connect_info().is_none());
    assert!(error.captured_chain_der().is_none());
}

#[test]
fn sending_and_closing_have_their_kinds() {
    assert_eq!(Error::tx(source(Cause::Other, None)).kind, ErrorKind::SendRequest);
    assert_eq!(Error::closed(source(Cause::Other, None)).kind, ErrorKind::ChannelClosed);
    assert_eq!(Error::tx(source(Cause::Tunnel, None)).kind, ErrorKind::ProxyConnect);
}

#[test]
fn chain_of_the_connection_is_taken_over() {
    let error = Error::tx(source(Cause::Other, None)).with_connect_info(connection(chain(b"leaf")));
    assert_eq!(error.captured_chain_der().cloned(), chain(b"leaf"));
    assert!(error.connect_info().unwrap().alpn_h2);
    assert_eq!(error.source(), Some(&"boom"));
    assert_eq!(error.kind, ErrorKind::SendRequest);
}

#[test]
fn carried_chain_is_kept() {
    let error = Error::tx(source(Cause::Other, chain(b"own")))
        .with_connect_info(connection(chain(b"leaf")));
    assert_eq!(error.captured_chain_der().cloned(), chain(b"own"));
}

#[test]
fn first_chain_wins_and_last_connection_stays() {
    let mut second = connection(chain(b"second"));
    second.alpn_h2 = false;
    let error = Error::tx(source(Cause::Other, None))
        .with_connect_info(connection(chain(b"first")))
        .with_connect_info(second);
    assert_eq!(error.captured_chain_der().cloned(), chain(b"first"));
    assert!(!error.connect_info().unwrap().alpn_h2);
}

#[test]
fn connection_without_a_chain_adds_none() {
    let error = Error::tx(source(Cause::Other, None)).with_connect_info(connection(None));
    assert!(error.captured_chain_der().is_none());
    let error = Error::tx(source(Cause::Other, None)).with_connect_info(Connected::new());
    assert!(error.captured_chain_der().is_none());
    assert!(error.connect_info().is_some());
}

#[test]
fn message_names_the_kind() {
    for kind in KINDS {
        let error: Error<&str> = Error::new_kind(kind);
        assert_eq!(error.message(), format!("client error ({:?})", kind));
    }
    let error: Error<&str> = Error::new_kind(ErrorKind::Connect);
    assert_eq!(error.message(), "client error (Connect)");
}
