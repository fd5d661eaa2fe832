use wreq_tls::AlpnProtocol;

const H2: &[u8] = b"h2";
const HTTP1: &[u8] = b"http/1.1";

#[test]
fn one_name_is_its_length_and_its_bytes() {
    assert_eq!(AlpnProtocol::new(H2).unwrap().encode(), b"\x02h2".to_vec());
}

#[test]
fn names_follow_one_another() {
    let list = [AlpnProtocol::new(H2).unwrap(), AlpnProtocol::new(HTTP1).unwrap()];
    assert_eq!(AlpnProtocol::encode_sequence(&list), b"\x02h2\x08http/1.1".to_vec());
}

#[test]
fn one_name_encodes_like_a_list_of_one() {
    let name = AlpnProtocol::new(HTTP1).unwrap();
    assert_eq!(name.encode(), AlpnProtocol::encode_sequence(&[name]));
}

#[test]
fn empty_list_is_empty() {
    assert!(AlpnProtocol::encode_sequence(&[]).is_empty());
}

#[test]
fn lists_that_differ_differ_on_the_wire() {
    let ab = [AlpnProtocol::new(b"a").unwrap(), AlpnProtocol::new(b"b").unwrap()];
    let joined = [AlpnProtocol::new(b"ab").unwrap()];
    assert_ne!(AlpnProtocol::encode_sequence(&ab), AlpnProtocol::encode_sequence(&joined));
}

#[test]
fn names_longer_than_a_byte_can_count_are_refused() {
    let longest: &'static [u8] = &[b'x'; 255];
    let too_long: &'static [u8] = &[b'x'; 256];
    assert_eq!(AlpnProtocol::new(longest).unwrap().encode().len(), 256);
    assert!(AlpnProtocol::new(too_long).is_none());
}
