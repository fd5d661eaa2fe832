use http::Uri;
use std::borrow::Cow;
use std::collections::HashMap;
use wreq_tls::{
    AlpnProtocol, AlpsProtocol, CallOutcome, CertificateCompressionAlgorithm, ConnectRequest,
    ConnectStep, ConnectionSetup, ContextSetup, ExtensionType, HandshakeConfig, HttpsConnector,
    SetupStatus, TlsConnector, TlsConnectorBuilder, TlsOptions, TlsVersion,
};

#[derive(Debug)]
struct Cache(usize);

type Builder = TlsConnectorBuilder<Cache, &'static str, &'static str, &'static str>;
type Connector = TlsConnector<&'static str, Cache>;

fn builder() -> Builder {
    Connector::builder(Cache)
}

fn name(text: &'static [u8]) -> AlpnProtocol {
    AlpnProtocol::new(text).unwrap()
}

fn plain() -> TlsOptions {
    TlsOptions {
        alpn_protocols: None,
        alps_protocols: None,
        alps_use_new_codepoint: false,
        session_ticket: true,
        min_tls_version: None,
        max_tls_version: None,
        pre_shared_key: false,
        enable_ech_grease: false,
        permute_extensions: None,
        grease_enabled: None,
        enable_ocsp_stapling: false,
        enable_signed_cert_timestamps: false,
        record_size_limit: None,
        psk_skip_session_ticket: false,
        key_shares_limit: None,
        psk_dhe_ke: true,
        renegotiation: true,
        delegated_credentials: None,
        curves_list: None,
        cipher_list: None,
        sigalgs_list: None,
        certificate_compression_algorithms: None,
        extension_permutation: None,
        aes_hw_override: None,
        preserve_tls13_cipher_list: None,
        random_aes_hw_override: false,
    }
}

type Context<'a> = ContextSetup<'a, Cache, &'static str, &'static str, &'static str>;

fn run_context(mut setup: Context<'_>) -> (Vec<String>, Option<Connector>) {
    let mut calls = Vec::new();
    while let Some(step) = setup.next() {
        calls.push(format!("{:?}", step));
        setup = setup.report(true);
    }
    (calls, setup.finish("context"))
}

fn connector(builder: &Builder, opts: &TlsOptions) -> Connector {
    run_context(builder.build(opts)).1.unwrap()
}

fn run_connection(
    mut setup: ConnectionSetup<'_, u32, Cache>,
    session_found: bool,
) -> (Vec<String>, SetupStatus) {
    let mut calls = Vec::new();
    while let Some(step) = setup.next() {
        calls.push(format!("{:?}", step));
        let outcome = match step {
            ConnectStep::LookUpSession(..) if session_found => CallOutcome::SessionFound,
            _ => CallOutcome::Done,
        };
        setup = setup.report(outcome);
    }
    let status = setup.status();
    (calls, status)
}

fn request(uri: &'static str, alpn_protocol: Option<AlpnProtocol>) -> ConnectRequest<u32> {
    ConnectRequest { uri: Uri::from_static(uri), alpn_protocol, identity: 42 }
}

fn connection_calls(connector: &Connector, req: &ConnectRequest<u32>, found: bool) -> Vec<String> {
    let https = HttpsConnector::with_connector((), connector.clone());
    run_connection(https.inner().setup_ssl2(req, 1), found).0
}

#[test]
fn default_context_is_made_with_these_calls() {
    let builder = builder();
    let opts = plain();
    let (calls, connector) = run_context(builder.build(&opts));
    assert_eq!(
        calls,
        vec![
            "Create",
            "CertStore(None)",
            "CertVerification(true)",
            "CertificateCompression(None)",
            "MinProtoVersion(None)",
            "MaxProtoVersion(None)",
            "MessageCallback",
            "VerifyCallback",
        ]
    );
    assert!(connector.is_some());
}

#[test]
fn every_option_makes_its_call_in_its_place() {
    let builder = builder()
        .cert_store(Some("store"))
        .cert_verification(false)
        .identity(Some("me"))
        .keylog(Some("log"))
        .min_version(Some(TlsVersion::TLS_1_0))
        .max_version(Some(TlsVersion::TLS_1_2));
    let opts = TlsOptions {
        min_tls_version: Some(TlsVersion::TLS_1_2),
        max_tls_version: Some(TlsVersion::TLS_1_3),
        enable_ocsp_stapling: true,
        enable_signed_cert_timestamps: true,
        session_ticket: false,
        psk_dhe_ke: false,
        renegotiation: false,
        grease_enabled: Some(true),
        permute_extensions: Some(false),
        curves_list: Some(Cow::Borrowed("X25519")),
        sigalgs_list: Some(Cow::Owned("rsa".to_string())),
        preserve_tls13_cipher_list: Some(true),
        cipher_list: Some(Cow::Borrowed("AES")),
        delegated_credentials: Some(Cow::Borrowed("ecdsa")),
        record_size_limit: Some(4001),
        key_shares_limit: Some(2),
        aes_hw_override: Some(true),
        extension_permutation: Some(Cow::Owned(vec![ExtensionType(10), ExtensionType(43)])),
        certificate_compression_algorithms: Some(Cow::Borrowed(&[
            CertificateCompressionAlgorithm::Brotli,
        ])),
        pre_shared_key: true,
        ..plain()
    };
    let (calls, _) = run_context(builder.build(&opts));
    assert_eq!(
        calls,
        vec![
            "Create",
            "CertStore(Some(\"store\"))",
            "CertVerification(false)",
            "CertificateCompression(Some([Brotli]))",
            "Identity(\"me\")",
            "MinProtoVersion(Some(TLS_1_2))",
            "MaxProtoVersion(Some(TLS_1_3))",
            "OcspStapling",
            "SignedCertTimestamps",
            "SwitchOff(Ticket)",
            "SwitchOff(PskDheKe)",
            "SwitchOff(Renegotiation)",
            "GreaseEnabled(true)",
            "PermuteExtensions(false)",
            "CurvesList(\"X25519\")",
            "SigalgsList(\"rsa\")",
            "PreserveTls13CipherList(true)",
            "CipherList(\"AES\")",
            "DelegatedCredentials(\"ecdsa\")",
            "RecordSizeLimit(4001)",
            "KeySharesLimit(2)",
            "AesHwOverride(true)",
            "ExtensionPermutation([ExtensionType(10), ExtensionType(43)])",
            "Keylog(\"log\")",
            "ClientSessionCacheMode",
            "NewSessionCallback(Cache(8))",
            "MessageCallback",
            "VerifyCallback",
        ]
    );
}

#[test]
fn versions_of_the_builder_hold_where_the_options_name_none() {
    let builder = builder()
        .min_version(Some(TlsVersion::TLS_1_1))
        .max_version(Some(TlsVersion::TLS_1_2));
    let opts = TlsOptions { max_tls_version: Some(TlsVersion::TLS_1_3), ..plain() };
    let (calls, _) = run_context(builder.build(&opts));
    assert!(calls.contains(&"MinProtoVersion(Some(TLS_1_1))".to_string()));
    assert!(calls.contains(&"MaxProtoVersion(Some(TLS_1_3))".to_string()));
}

#[test]
fn capture_is_installed_with_and_without_verification() {
    let with = builder().cert_verification(true);
    let without = builder().cert_verification(false);
    let opts = plain();
    let mut one = run_context(with.build(&opts)).0;
    let other = run_context(without.build(&opts)).0;
    assert_eq!(other[other.len() - 2..], ["MessageCallback", "VerifyCallback"]);
    one[2] = "CertVerification(false)".to_string();
    assert_eq!(one, other);
}

#[test]
fn failed_call_leaves_no_connector() {
    let builder = builder();
    let opts = plain();
    let mut setup = builder.build(&opts);
    setup = setup.report(true);
    setup = setup.report(false);
    assert!(setup.next().is_none());
    assert!(setup.finish("context").is_none());
}

#[test]
fn unfinished_setup_is_no_connector() {
    let builder = builder();
    let opts = plain();
    assert!(builder.build(&opts).report(true).finish("context").is_none());
}

#[test]
fn copy_of_a_builder_builds_the_same() {
    let builder = builder().identity(Some("me")).keylog(Some("log")).tls_sni(false);
    let copy = builder.clone();
    let opts = TlsOptions { pre_shared_key: true, ..plain() };
    assert_eq!(run_context(builder.build(&opts)).0, run_context(copy.build(&opts)).0);
}

#[test]
fn default_connection_is_made_with_these_calls() {
    let connector = connector(&builder(), &plain());
    assert_eq!(
        connection_calls(&connector, &request("https://example.com/", None), false),
        vec![
            "Configure",
            "ServerNameIndication(true)",
            "VerifyHostname(true)",
            "EchGrease(false)",
            "IntoSsl(\"example.com\")",
        ]
    );
}

#[test]
fn settings_reach_the_connection() {
    let builder = builder().tls_sni(false).verify_hostname(false);
    let opts = TlsOptions {
        enable_ech_grease: true,
        random_aes_hw_override: true,
        alps_protocols: Some(Cow::Owned(vec![AlpsProtocol(b"h2"), AlpsProtocol(b"h3")])),
        alps_use_new_codepoint: true,
        alpn_protocols: Some(Cow::Owned(vec![name(b"h2"), name(b"a")])),
        ..plain()
    };
    let connector = connector(&builder, &opts);
    assert_eq!(
        connection_calls(&connector, &request("https://example.com/", None), false),
        vec![
            "Configure",
            "ServerNameIndication(false)",
            "VerifyHostname(false)",
            "EchGrease(true)",
            "AesHwOverride(false)",
            "ApplicationSettings(AlpsProtocol([104, 50]))",
            "ApplicationSettings(AlpsProtocol([104, 51]))",
            "AlpsUseNewCodepoint",
            "AlpnProtos([2, 104, 50, 1, 97])",
            "IntoSsl(\"example.com\")",
        ]
    );
    let https = HttpsConnector::with_connector((), connector);
    let req = request("https://example.com/", None);
    let even = run_connection(https.inner().setup_ssl2(&req, 6), false).0;
    assert!(even.contains(&"AesHwOverride(true)".to_string()));
}

#[test]
fn new_codepoint_needs_alps_protocols() {
    for alps_protocols in [None, Some(Cow::Owned(vec![]))] {
        let opts = TlsOptions { alps_protocols, alps_use_new_codepoint: true, ..plain() };
        let connector = connector(&builder(), &opts);
        let calls = connection_calls(&connector, &request("https://example.com/", None), false);
        assert!(!calls.contains(&"AlpsUseNewCodepoint".to_string()));
    }
}

#[test]
fn protocol_of_the_builder_replaces_those_of_the_options() {
    let opts = TlsOptions { alpn_protocols: Some(Cow::Borrowed(&[])), ..plain() };
    let connector = connector(&builder().alpn_protocol(Some(name(b"h2"))), &opts);
    let calls = connection_calls(&connector, &request("https://example.com/", None), false);
    assert!(calls.contains(&"AlpnProtos([2, 104, 50])".to_string()));
}

#[test]
fn protocol_of_the_request_takes_precedence() {
    let connector = connector(&builder().alpn_protocol(Some(name(b"h2"))), &plain());
    let req = request("https://example.com/", Some(name(b"a")));
    let calls = connection_calls(&connector, &req, false);
    assert!(calls.contains(&"AlpnProtos([1, 97])".to_string()));
    assert!(!calls.contains(&"AlpnProtos([2, 104, 50])".to_string()));
}

#[test]
fn disabled_alpn_offers_nothing_but_what_is_requested() {
    let connector = connector(&builder().alpn_protocol(Some(name(b"h2"))), &plain());
    let mut https = HttpsConnector::with_connector("tcp", connector);
    assert_eq!(*https.no_alpn().http(), "tcp");
    let req = request("https://example.com/", None);
    let calls = run_connection(https.inner().setup_ssl2(&req, 0), false).0;
    assert_eq!(calls.len(), 5);
    assert!(!calls.iter().any(|call| call.starts_with("AlpnProtos")));
    let req = request("https://example.com/", Some(name(b"a")));
    let calls = run_connection(https.clone().inner().setup_ssl2(&req, 0), false).0;
    assert!(calls.contains(&"AlpnProtos([1, 97])".to_string()));
}

#[test]
fn cached_session_is_resumed() {
    let opts = TlsOptions { pre_shared_key: true, psk_skip_session_ticket: true, ..plain() };
    let connector = connector(&builder(), &opts);
    let req = request("https://example.com/", None);
    assert_eq!(
        connection_calls(&connector, &req, true)[4..],
        [
            "LookUpSession(Cache(8), 42)",
            "ResumeSession",
            "NoTicket",
            "LeaveKey(42)",
            "IntoSsl(\"example.com\")",
        ]
    );
    assert_eq!(
        connection_calls(&connector, &req, false)[4..],
        ["LookUpSession(Cache(8), 42)", "LeaveKey(42)", "IntoSsl(\"example.com\")"]
    );
}

#[test]
fn resumed_session_keeps_tickets_unless_told() {
    let opts = TlsOptions { pre_shared_key: true, ..plain() };
    let connector = connector(&builder(), &opts);
    let calls = connection_calls(&connector, &request("https://example.com/", None), true);
    assert_eq!(
        calls[4..],
        [
            "LookUpSession(Cache(8), 42)",
            "ResumeSession",
            "LeaveKey(42)",
            "IntoSsl(\"example.com\")",
        ]
    );
}

#[test]
fn no_cache_means_no_resumption() {
    let opts = TlsOptions { psk_skip_session_ticket: true, ..plain() };
    let connector = connector(&builder(), &opts);
    let req = request("https://example.com/", None);
    assert_eq!(connection_calls(&connector, &req, true).len(), 5);
}

#[test]
fn uri_without_a_host_is_refused_after_the_offer() {
    let opts = TlsOptions { pre_shared_key: true, ..plain() };
    let https = HttpsConnector::with_connector((), connector(&builder(), &opts));
    let req = request("/path", Some(name(b"a")));
    let (calls, status) = run_connection(https.inner().setup_ssl2(&req, 0), true);
    assert_eq!(status, SetupStatus::MissingHost);
    assert_eq!(calls.last().unwrap(), "AlpnProtos([1, 97])");
    assert_eq!(calls.len(), 5);
    assert_eq!(wreq_tls::connect::MISSING_HOST_MESSAGE, "URI missing host");
}

#[test]
fn plain_setup_takes_the_host_alone() {
    let https = HttpsConnector::with_connector((), connector(&builder(), &plain()));
    let uri = Uri::from_static("https://[::1]:443/");
    let (calls, status) = run_connection(https.inner().setup_ssl(&uri), false);
    assert_eq!(calls, vec!["Configure", "IntoSsl(\"::1\")"]);
    assert_eq!(status, SetupStatus::Ready);
    let uri = Uri::from_static("*");
    let (calls, status) = run_connection(https.inner().setup_ssl(&uri), false);
    assert_eq!(calls, vec!["Configure"]);
    assert_eq!(status, SetupStatus::MissingHost);
}

#[test]
fn setup_takes_the_host_that_it_is_given() {
    let https = HttpsConnector::with_connector((), connector(&builder(), &plain()));
    let (calls, status) = run_connection(https.inner().setup_ssl_to(Some("a.example")), false);
    assert_eq!(calls, vec!["Configure", "IntoSsl(\"a.example\")"]);
    assert_eq!(status, SetupStatus::Ready);
    let req = request("https://example.com/", None);
    let setup = https.inner().setup_ssl2_to(&req, Some("b.example"), 0);
    let (calls, status) = run_connection(setup, false);
    assert_eq!(calls.last().unwrap(), "IntoSsl(\"b.example\")");
    assert_eq!(status, SetupStatus::Ready);
    let (_, status) = run_connection(https.inner().setup_ssl2_to(&req, None, 0), false);
    assert_eq!(status, SetupStatus::MissingHost);
}

#[test]
fn authority_without_a_readable_host_is_refused() {
    let https = HttpsConnector::with_connector((), connector(&builder(), &plain()));
    let uri = Uri::from(http::uri::Authority::from_static("a/@"));
    let (calls, status) = run_connection(https.inner().setup_ssl(&uri), false);
    assert_eq!(calls, vec!["Configure"]);
    assert_eq!(status, SetupStatus::MissingHost);
    let req = ConnectRequest { uri, alpn_protocol: None, identity: 42 };
    let (_, status) = run_connection(https.inner().setup_ssl2(&req, 0), false);
    assert_eq!(status, SetupStatus::MissingHost);
}

/// Runs a setup against a cache of sessions by key; gives the session that was
/// resumed, and keeps `new` under the key that was left on the connection.
fn connect(
    mut setup: ConnectionSetup<'_, u32, Cache>,
    sessions: &mut HashMap<u32, &'static str>,
    new: &'static str,
) -> Option<&'static str> {
    let mut found = None;
    let mut resumed = None;
    let mut left = None;
    while let Some(step) = setup.next() {
        let mut outcome = CallOutcome::Done;
        match step {
            ConnectStep::LookUpSession(_, key) => {
                found = sessions.get(*key).copied();
                if found.is_some() {
                    outcome = CallOutcome::SessionFound;
                }
            }
            ConnectStep::ResumeSession => resumed = found,
            ConnectStep::LeaveKey(key) => left = Some(**key),
            _ => {}
        }
        setup = setup.report(outcome);
    }
    if let Some(key) = left {
        sessions.insert(key, new);
    }
    resumed
}

#[test]
fn sessions_are_offered_to_their_own_identity() {
    let opts = TlsOptions { pre_shared_key: true, ..plain() };
    let https = HttpsConnector::with_connector((), connector(&builder(), &opts));
    let one = request("https://example.com/", None);
    let mut other = request("https://example.com/", None);
    other.identity = 43;
    let mut sessions = HashMap::new();
    assert_eq!(connect(https.inner().setup_ssl2(&one, 0), &mut sessions, "a"), None);
    assert_eq!(connect(https.inner().setup_ssl2(&other, 0), &mut sessions, "b"), None);
    assert_eq!(connect(https.inner().setup_ssl2(&one, 0), &mut sessions, "c"), Some("a"));
    assert_eq!(connect(https.inner().setup_ssl2(&other, 0), &mut sessions, "d"), Some("b"));
    assert_eq!(connect(https.inner().setup_ssl2(&one, 0), &mut sessions, "e"), Some("c"));
}

#[test]
fn last_call_of_each_setter_counts() {
    let config = HandshakeConfig::builder()
        .no_ticket(true)
        .tls_sni(false)
        .no_ticket(false)
        .alps_use_new_codepoint(true)
        .alpn_protocols(Some(Cow::Owned(vec![name(b"a")])))
        .tls_sni(true)
        .tls_sni(false)
        .alpn_protocols(None)
        .build();
    let same = HandshakeConfig::builder().alps_use_new_codepoint(true).tls_sni(false).build();
    assert_eq!(format!("{:?}", config), format!("{:?}", same));
    assert_eq!(
        format!("{:?}", config),
        "HandshakeConfig { no_ticket: false, enable_ech_grease: false, verify_hostname: true, \
         tls_sni: false, alpn_protocols: None, alps_protocols: None, \
         alps_use_new_codepoint: true, random_aes_hw_override: false }"
    );
    let builder = builder().cert_verification(false).keylog(Some("a")).keylog(None);
    let builder = builder.cert_verification(true).cert_store(Some("x")).cert_store(Some("y"));
    let opts = plain();
    let calls = run_context(builder.build(&opts)).0;
    assert_eq!(calls[1..3], ["CertStore(Some(\"y\"))", "CertVerification(true)"]);
    assert!(!calls.iter().any(|call| call.starts_with("Keylog")));
}

#[test]
fn failed_call_ends_the_connection() {
    let https = HttpsConnector::with_connector((), connector(&builder(), &plain()));
    assert_eq!(*https.inner().ssl(), "context");
    let req = request("/path", None);
    let setup: ConnectionSetup<'_, u32, Cache> = https.inner().setup_ssl2(&req, 0);
    assert_eq!(setup.status(), SetupStatus::Running);
    let setup = setup.report(CallOutcome::Failed);
    assert!(setup.next().is_none());
    assert_eq!(setup.status(), SetupStatus::Failed);
}

#[test]
fn handshake_config_holds_what_was_set() {
    let default = format!("{:?}", HandshakeConfig::default());
    assert_eq!(
        default,
        "HandshakeConfig { no_ticket: false, enable_ech_grease: false, verify_hostname: true, \
         tls_sni: true, alpn_protocols: None, alps_protocols: None, \
         alps_use_new_codepoint: false, random_aes_hw_override: false }"
    );
    assert_eq!(format!("{:?}", HandshakeConfig::builder().build()), default);
    let config = HandshakeConfig::builder()
        .no_ticket(true)
        .enable_ech_grease(true)
        .verify_hostname(false)
        .tls_sni(false)
        .alpn_protocols(Some(Cow::Owned(vec![name(b"a")])))
        .alps_protocols(Some(Cow::Borrowed(&[AlpsProtocol(b"b")])))
        .alps_use_new_codepoint(true)
        .random_aes_hw_override(true)
        .build();
    let expected = "HandshakeConfig { no_ticket: true, enable_ech_grease: true, \
                    verify_hostname: false, tls_sni: false, \
                    alpn_protocols: Some([AlpnProtocol([97])]), \
                    alps_protocols: Some([AlpsProtocol([98])]), \
                    alps_use_new_codepoint: true, random_aes_hw_override: true }";
    assert_eq!(format!("{:?}", config), expected);
    assert_eq!(format!("{:?}", config.clone()), expected);
}
