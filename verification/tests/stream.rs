use wreq_tls::{
    AlpnProtocol, Certificate, ConnectRequest, Connected, Connection, EstablishedConn,
    HandshakeCapture, MaybeHttpsStream, Slot, SslState, SslStream, TlsInfoFactory,
};

struct Wire(u8);

impl Connection for Wire {
    fn connected(&self) -> Connected {
        Connected::new()
    }
}

fn tls(protocol: Option<&[u8]>) -> MaybeHttpsStream<Wire> {
    MaybeHttpsStream::Https(SslStream {
        stream: Wire(7),
        ssl: SslState {
            capture: HandshakeCapture {
                server_hello: Slot::Empty,
                encrypted_extensions: Slot::Empty,
                captured_chain_der: Slot::Empty,
            },
            peer_certificate: Some(Certificate { der: Some(b"leaf".to_vec()) }),
            peer_cert_chain: None,
            selected_alpn_protocol: protocol.map(|name| name.to_vec()),
        },
    })
}

#[test]
fn underlying_stream_is_reached_through_tls_or_not() {
    assert_eq!(MaybeHttpsStream::Http(Wire(3)).get_ref().0, 3);
    assert_eq!(tls(None).get_ref().0, 7);
}

#[test]
fn only_h2_counts_as_h2() {
    assert!(tls(Some(b"h2")).connected().alpn_h2);
    assert!(!tls(Some(b"http/1.1")).connected().alpn_h2);
    assert!(!tls(Some(b"h3")).connected().alpn_h2);
    assert!(!tls(Some(b"h2c")).connected().alpn_h2);
    assert!(!tls(Some(b"")).connected().alpn_h2);
    assert!(!tls(None).connected().alpn_h2);
    assert!(!MaybeHttpsStream::Http(Wire(1)).connected().alpn_h2);
}

#[test]
fn tls_streams_report_and_plain_ones_do_not() {
    let info = tls(None).tls_info().unwrap();
    assert_eq!(info.peer_certificate(), Some(&b"leaf"[..]));
    assert!(MaybeHttpsStream::Http(Wire(1)).tls_info().is_none());
}

#[test]
fn tls_over_tls_reports_the_outer_session() {
    let outer = SslStream {
        stream: tls(None),
        ssl: SslState {
            capture: HandshakeCapture {
                server_hello: Slot::Held(vec![1]),
                encrypted_extensions: Slot::Empty,
                captured_chain_der: Slot::Empty,
            },
            peer_certificate: None,
            peer_cert_chain: None,
            selected_alpn_protocol: None,
        },
    };
    let info = outer.tls_info().unwrap();
    assert!(info.peer_certificate().is_none());
    assert_eq!(info.server_hello.unwrap().as_ref(), &[1][..]);
    assert_eq!(outer.get_ref().get_ref().0, 7);
}

#[test]
fn streams_show_as_http_or_https() {
    assert_eq!(MaybeHttpsStream::Http(Wire(1)).debug_text(), "Http(..)");
    assert_eq!(tls(None).debug_text(), "Https(..)");
}

#[test]
fn established_connection_holds_its_parts() {
    let conn = EstablishedConn::new(
        Wire(5),
        ConnectRequest {
            uri: http::Uri::from_static("https://example.com/"),
            alpn_protocol: AlpnProtocol::new(b"h2"),
            identity: 11u32,
        },
    );
    assert_eq!(conn.io.0, 5);
    assert_eq!(conn.req.identity, 11);
    assert_eq!(conn.req.uri.host(), Some("example.com"));
}
