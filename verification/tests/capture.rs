use wreq_tls::{
    may_be_captured, server_hello_msg_callback, verify_peer, Certificate, HandshakeCapture, Slot,
};

fn open() -> HandshakeCapture {
    HandshakeCapture {
        server_hello: Slot::Empty,
        encrypted_extensions: Slot::Empty,
        captured_chain_der: Slot::Empty,
    }
}

fn cert(der: &[u8]) -> Certificate {
    Certificate { der: Some(der.to_vec()) }
}

#[test]
fn server_hello_is_kept_without_its_header() {
    let mut capture = open();
    server_hello_msg_callback(&mut capture, 0, 22, &[2, 0, 0, 3, 3, 3, 9]);
    assert_eq!(capture.server_hello(), Some(vec![3, 3, 9]));
    assert_eq!(capture.encrypted_extensions(), None);
    assert_eq!(capture.captured_chain_der(), None);
}

#[test]
fn encrypted_extensions_are_kept_without_their_header() {
    let mut capture = open();
    server_hello_msg_callback(&mut capture, 0, 22, &[8, 0, 0, 2, 0, 0]);
    assert_eq!(capture.encrypted_extensions(), Some(vec![0, 0]));
    assert_eq!(capture.server_hello(), None);
}

#[test]
fn message_of_a_header_alone_is_kept_whole() {
    let mut capture = open();
    server_hello_msg_callback(&mut capture, 0, 22, &[2, 0, 0, 0]);
    server_hello_msg_callback(&mut capture, 0, 22, &[8, 0, 0, 0]);
    assert_eq!(capture.server_hello(), Some(vec![2, 0, 0, 0]));
    assert_eq!(capture.encrypted_extensions(), Some(vec![8, 0, 0, 0]));
}

#[test]
fn other_messages_are_not_kept() {
    let mut capture = open();
    let hello = [2, 0, 0, 1, 7];
    server_hello_msg_callback(&mut capture, 1, 22, &hello);
    server_hello_msg_callback(&mut capture, -1, 22, &hello);
    server_hello_msg_callback(&mut capture, 0, 23, &hello);
    server_hello_msg_callback(&mut capture, 0, 22, &hello[..3]);
    server_hello_msg_callback(&mut capture, 0, 22, &[]);
    server_hello_msg_callback(&mut capture, 0, 22, &[1, 0, 0, 1, 7]);
    assert_eq!(capture.server_hello(), None);
    assert_eq!(capture.encrypted_extensions(), None);
}

#[test]
fn later_server_hello_replaces_the_earlier_one() {
    let mut capture = open();
    server_hello_msg_callback(&mut capture, 0, 22, &[2, 0, 0, 1, 7]);
    server_hello_msg_callback(&mut capture, 0, 22, &[2, 0, 0, 1, 8]);
    assert_eq!(capture.server_hello(), Some(vec![8]));
}

#[test]
fn closed_slots_keep_nothing() {
    let mut capture = HandshakeCapture {
        server_hello: Slot::Closed,
        encrypted_extensions: Slot::Closed,
        captured_chain_der: Slot::Closed,
    };
    server_hello_msg_callback(&mut capture, 0, 22, &[2, 0, 0, 1, 7]);
    server_hello_msg_callback(&mut capture, 0, 22, &[8, 0, 0, 1, 7]);
    assert!(verify_peer(&mut capture, Some(vec![cert(b"leaf")])));
    assert_eq!(capture.server_hello(), None);
    assert_eq!(capture.encrypted_extensions(), None);
    assert_eq!(capture.captured_chain_der(), None);
}

#[test]
fn chain_is_kept_and_accepted() {
    let mut capture = open();
    assert!(verify_peer(&mut capture, Some(vec![cert(b"leaf"), cert(b"root")])));
    assert_eq!(capture.captured_chain_der(), Some(vec![b"leaf".to_vec(), b"root".to_vec()]));
}

#[test]
fn certificates_that_cannot_be_encoded_are_left_out() {
    let mut capture = open();
    let chain = vec![Certificate { der: None }, cert(b"middle"), Certificate { der: None }, cert(b"root")];
    assert!(verify_peer(&mut capture, Some(chain)));
    assert_eq!(capture.captured_chain_der(), Some(vec![b"middle".to_vec(), b"root".to_vec()]));
}

#[test]
fn peer_without_a_chain_is_accepted_and_keeps_what_was_there() {
    let mut capture = open();
    assert!(verify_peer(&mut capture, None));
    assert_eq!(capture.captured_chain_der(), None);
    assert!(verify_peer(&mut capture, Some(vec![cert(b"leaf")])));
    assert!(verify_peer(&mut capture, None));
    assert!(verify_peer(&mut capture, Some(vec![])));
    assert!(verify_peer(&mut capture, Some(vec![Certificate { der: None }])));
    assert_eq!(capture.captured_chain_der(), Some(vec![b"leaf".to_vec()]));
}

#[test]
fn messages_and_chain_are_kept_apart() {
    let mut one = open();
    server_hello_msg_callback(&mut one, 0, 22, &[2, 0, 0, 1, 7]);
    verify_peer(&mut one, Some(vec![cert(b"leaf")]));
    let mut other = open();
    verify_peer(&mut other, Some(vec![cert(b"leaf")]));
    server_hello_msg_callback(&mut other, 0, 22, &[2, 0, 0, 1, 7]);
    assert_eq!(one.server_hello(), other.server_hello());
    assert_eq!(one.captured_chain_der(), other.captured_chain_der());
    assert_eq!(one.captured_chain_der(), Some(vec![b"leaf".to_vec()]));
}

#[test]
fn only_long_enough_received_handshake_records_are_looked_into() {
    assert!(may_be_captured(0, 22, 4));
    assert!(!may_be_captured(0, 22, 3));
    assert!(!may_be_captured(1, 22, 4));
    assert!(!may_be_captured(0, 23, 4));
}
