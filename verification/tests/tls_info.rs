use bytes::Bytes;
use wreq_tls::{
    extract_tls_info, server_hello_msg_callback, verify_peer, Certificate, HandshakeCapture, Slot,
    SslState,
};

fn fresh() -> SslState {
    SslState {
        capture: HandshakeCapture {
            server_hello: Slot::Empty,
            encrypted_extensions: Slot::Empty,
            captured_chain_der: Slot::Empty,
        },
        peer_certificate: None,
        peer_cert_chain: None,
        selected_alpn_protocol: None,
    }
}

fn cert(der: &[u8]) -> Certificate {
    Certificate { der: Some(der.to_vec()) }
}

fn buffers(list: &[&'static [u8]]) -> Option<Vec<Bytes>> {
    Some(list.iter().map(|der| Bytes::from_static(der)).collect())
}

#[test]
fn untrusted_chain_is_reported_though_the_engine_kept_nothing() {
    let mut ssl = fresh();
    assert!(verify_peer(&mut ssl.capture, Some(vec![cert(b"self-signed")])));
    let info = extract_tls_info(&ssl);
    assert_eq!(info.peer_certificate(), Some(&b"self-signed"[..]));
    assert_eq!(info.peer_certificate_chain, buffers(&[b"self-signed"]));
    assert_eq!(info.captured_chain_der_bytes().cloned(), buffers(&[b"self-signed"]));
}

#[test]
fn nothing_known_is_nothing_reported() {
    let info = extract_tls_info(&fresh());
    assert!(info.peer_certificate().is_none());
    assert!(info.peer_certificate_chain.is_none());
    assert!(info.captured_chain_der_bytes().is_none());
    assert!(info.server_hello.is_none());
    assert!(info.encrypted_extensions.is_none());
}

#[test]
fn leaf_of_the_engine_comes_before_that_of_the_captured_chain() {
    let mut ssl = fresh();
    ssl.peer_certificate = Some(cert(b"engine"));
    verify_peer(&mut ssl.capture, Some(vec![cert(b"captured")]));
    assert_eq!(extract_tls_info(&ssl).peer_certificate(), Some(&b"engine"[..]));
}

#[test]
fn leaf_that_cannot_be_encoded_gives_way_to_the_captured_chain() {
    let mut ssl = fresh();
    ssl.peer_certificate = Some(Certificate { der: None });
    assert!(extract_tls_info(&ssl).peer_certificate().is_none());
    verify_peer(&mut ssl.capture, Some(vec![cert(b"captured"), cert(b"root")]));
    assert_eq!(extract_tls_info(&ssl).peer_certificate(), Some(&b"captured"[..]));
}

#[test]
fn captured_chain_comes_before_that_of_the_engine() {
    let mut ssl = fresh();
    ssl.peer_cert_chain = Some(vec![cert(b"engine"), Certificate { der: None }, cert(b"root")]);
    let info = extract_tls_info(&ssl);
    assert_eq!(info.peer_certificate_chain, buffers(&[b"engine", b"root"]));
    assert!(info.captured_chain_der.is_none());
    assert!(info.peer_certificate.is_none());

    verify_peer(&mut ssl.capture, Some(vec![cert(b"captured")]));
    let info = extract_tls_info(&ssl);
    assert_eq!(info.peer_certificate_chain, buffers(&[b"captured"]));
    assert_eq!(info.captured_chain_der, buffers(&[b"captured"]));
}

#[test]
fn captured_messages_are_reported() {
    let mut ssl = fresh();
    server_hello_msg_callback(&mut ssl.capture, 0, 22, &[2, 0, 0, 2, 3, 4]);
    server_hello_msg_callback(&mut ssl.capture, 0, 22, &[8, 0, 0, 1, 5]);
    let info = extract_tls_info(&ssl);
    assert_eq!(info.server_hello, Some(Bytes::from_static(&[3, 4])));
    assert_eq!(info.encrypted_extensions, Some(Bytes::from_static(&[5])));
}

#[test]
fn copy_of_a_report_says_the_same() {
    let mut ssl = fresh();
    verify_peer(&mut ssl.capture, Some(vec![cert(b"leaf"), cert(b"root")]));
    server_hello_msg_callback(&mut ssl.capture, 0, 22, &[2, 0, 0, 1, 9]);
    let copy = extract_tls_info(&ssl).clone();
    assert_eq!(copy.peer_certificate(), Some(&b"leaf"[..]));
    assert_eq!(copy.peer_certificate_chain, buffers(&[b"leaf", b"root"]));
    assert_eq!(copy.captured_chain_der, buffers(&[b"leaf", b"root"]));
    assert_eq!(copy.server_hello, Some(Bytes::from_static(&[9])));
    assert!(copy.encrypted_extensions.is_none());
}
