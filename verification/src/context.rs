//! The calls that set up a TLS context, and the builder that decides on them.

use std::borrow::Cow;
use std::sync::Arc;
use vstd::prelude::*;

use crate::alpn::AlpnProtocol;
use crate::config::{
    copy_list, last_argument, listed, HandshakeConfig, HandshakeSettings,
};
use crate::connect::{Inner, TlsConnector};
use crate::options::{
    items, text, CertificateCompressionAlgorithm, ExtensionType, TlsOptions, TlsVersion,
};
use crate::queue::{QueueState, StepQueue};
use crate::shared::share;

verus! {

/// A feature of the TLS engine that can be switched off.
#[derive(Clone, Copy, Debug, PartialEq, Eq, Structural)]
pub enum SwitchOff {
    /// Session tickets.
    Ticket,
    /// Resumption with a key exchange.
    PskDheKe,
    /// Renegotiation.
    Renegotiation,
}

/// A call to the TLS engine on the way to a context.
///
/// `S` is a certificate store, `I` a client identity, `K` a key log policy and
/// `C` a session cache.
#[derive(Debug)]
pub enum ContextStep<'a, C, I, S, K> {
    /// Make a client context that verifies nothing by default.
    Create,
    /// Use this certificate store, or the default one.
    CertStore(Option<&'a S>),
    /// Ask for verification of the peer's certificate, or for none.
    CertVerification(bool),
    /// Offer these certificate compression algorithms, if any were chosen.
    CertificateCompression(Option<&'a [CertificateCompressionAlgorithm]>),
    /// Present this client identity.
    Identity(&'a I),
    MinProtoVersion(Option<TlsVersion>),
    MaxProtoVersion(Option<TlsVersion>),
    OcspStapling,
    SignedCertTimestamps,
    SwitchOff(SwitchOff),
    GreaseEnabled(bool),
    PermuteExtensions(bool),
    CurvesList(&'a str),
    SigalgsList(&'a str),
    PreserveTls13CipherList(bool),
    CipherList(&'a str),
    DelegatedCredentials(&'a str),
    RecordSizeLimit(u16),
    KeySharesLimit(u8),
    AesHwOverride(bool),
    ExtensionPermutation(&'a [ExtensionType]),
    /// Open the key log and write every line to it.
    Keylog(&'a K),
    /// Keep sessions of this client.
    ClientSessionCacheMode,
    /// Put every new session into this cache, under the key that was left on
    /// the connection, if there is one.
    NewSessionCallback(&'a Arc<C>),
    /// Show every message to [`crate::capture::server_hello_msg_callback`].
    MessageCallback,
    /// Ask [`crate::capture::verify_peer`] about the peer's chain.
    VerifyCallback,
}

/// What a [`ContextStep`] asks for.
pub enum ContextCall<C, I, S, K> {
    Create,
    CertStore(Option<S>),
    CertVerification(bool),
    CertificateCompression(Option<Seq<CertificateCompressionAlgorithm>>),
    Identity(I),
    MinProtoVersion(Option<TlsVersion>),
    MaxProtoVersion(Option<TlsVersion>),
    OcspStapling,
    SignedCertTimestamps,
    SwitchOff(SwitchOff),
    GreaseEnabled(bool),
    PermuteExtensions(bool),
    CurvesList(Seq<char>),
    SigalgsList(Seq<char>),
    PreserveTls13CipherList(bool),
    CipherList(Seq<char>),
    DelegatedCredentials(Seq<char>),
    RecordSizeLimit(u16),
    KeySharesLimit(u8),
    AesHwOverride(bool),
    ExtensionPermutation(Seq<ExtensionType>),
    Keylog(K),
    ClientSessionCacheMode,
    NewSessionCallback(C),
    MessageCallback,
    VerifyCallback,
}

impl<'a, C, I, S, K> View for ContextStep<'a, C, I, S, K> {
    type V = ContextCall<C, I, S, K>;

    open spec fn view(&self) -> ContextCall<C, I, S, K> {
        match *self {
            ContextStep::Create => ContextCall::Create,
            ContextStep::CertStore(store) => ContextCall::CertStore(
                match store {
                    Some(store) => Some(*store),
                    None => None,
                },
            ),
            ContextStep::CertVerification(on) => ContextCall::CertVerification(on),
            ContextStep::CertificateCompression(algorithms) => ContextCall::CertificateCompression(
                match algorithms {
                    Some(algorithms) => Some(algorithms@),
                    None => None,
                },
            ),
            ContextStep::Identity(identity) => ContextCall::Identity(*identity),
            ContextStep::MinProtoVersion(version) => ContextCall::MinProtoVersion(version),
            ContextStep::MaxProtoVersion(version) => ContextCall::MaxProtoVersion(version),
            ContextStep::OcspStapling => ContextCall::OcspStapling,
            ContextStep::SignedCertTimestamps => ContextCall::SignedCertTimestamps,
            ContextStep::SwitchOff(feature) => ContextCall::SwitchOff(feature),
            ContextStep::GreaseEnabled(on) => ContextCall::GreaseEnabled(on),
            ContextStep::PermuteExtensions(on) => ContextCall::PermuteExtensions(on),
            ContextStep::CurvesList(list) => ContextCall::CurvesList(list@),
            ContextStep::SigalgsList(list) => ContextCall::SigalgsList(list@),
            ContextStep::PreserveTls13CipherList(on) => ContextCall::PreserveTls13CipherList(on),
            ContextStep::CipherList(list) => ContextCall::CipherList(list@),
            ContextStep::DelegatedCredentials(list) => ContextCall::DelegatedCredentials(list@),
            ContextStep::RecordSizeLimit(limit) => ContextCall::RecordSizeLimit(limit),
            ContextStep::KeySharesLimit(limit) => ContextCall::KeySharesLimit(limit),
            ContextStep::AesHwOverride(on) => ContextCall::AesHwOverride(on),
            ContextStep::ExtensionPermutation(order) => ContextCall::ExtensionPermutation(order@),
            ContextStep::Keylog(policy) => ContextCall::Keylog(*policy),
            ContextStep::ClientSessionCacheMode => ContextCall::ClientSessionCacheMode,
            ContextStep::NewSessionCallback(cache) => ContextCall::NewSessionCallback(**cache),
            ContextStep::MessageCallback => ContextCall::MessageCallback,
            ContextStep::VerifyCallback => ContextCall::VerifyCallback,
        }
    }
}

/// A builder for creating a `TlsConnector`.
pub struct TlsConnectorBuilder<C, I, S, K> {
    session_cache: Arc<C>,
    alpn_protocol: Option<AlpnProtocol>,
    max_version: Option<TlsVersion>,
    min_version: Option<TlsVersion>,
    tls_sni: bool,
    verify_hostname: bool,
    identity: Option<I>,
    cert_store: Option<S>,
    cert_verification: bool,
    keylog: Option<K>,
}

/// What a [`TlsConnectorBuilder`] holds.
pub struct BuilderSettings<C, I, S, K> {
    pub session_cache: C,
    pub alpn_protocol: Option<AlpnProtocol>,
    pub max_version: Option<TlsVersion>,
    pub min_version: Option<TlsVersion>,
    pub tls_sni: bool,
    pub verify_hostname: bool,
    pub identity: Option<I>,
    pub cert_store: Option<S>,
    pub cert_verification: bool,
    pub keylog: Option<K>,
}

/// A call of a setter of [`TlsConnectorBuilder`], with its argument.
pub enum BuilderSetter<I, S, K> {
    AlpnProtocol(Option<AlpnProtocol>),
    MaxVersion(Option<TlsVersion>),
    MinVersion(Option<TlsVersion>),
    TlsSni(bool),
    VerifyHostname(bool),
    Identity(Option<I>),
    CertStore(Option<S>),
    CertVerification(bool),
    Keylog(Option<K>),
}

impl<C, I, S, K> BuilderSettings<C, I, S, K> {
    /// The settings after a setter was called: the field of that name has changed, and
    /// no other.
    pub open spec fn set(self, call: BuilderSetter<I, S, K>) -> BuilderSettings<C, I, S, K> {
        match call {
            BuilderSetter::AlpnProtocol(alpn_protocol) => BuilderSettings { alpn_protocol, ..self },
            BuilderSetter::MaxVersion(max_version) => BuilderSettings { max_version, ..self },
            BuilderSetter::MinVersion(min_version) => BuilderSettings { min_version, ..self },
            BuilderSetter::TlsSni(tls_sni) => BuilderSettings { tls_sni, ..self },
            BuilderSetter::VerifyHostname(verify_hostname) => BuilderSettings { verify_hostname, ..self },
            BuilderSetter::Identity(identity) => BuilderSettings { identity, ..self },
            BuilderSetter::CertStore(cert_store) => BuilderSettings { cert_store, ..self },
            BuilderSetter::CertVerification(cert_verification) => BuilderSettings { cert_verification, ..self },
            BuilderSetter::Keylog(keylog) => BuilderSettings { keylog, ..self },
        }
    }

    /// The settings after these calls, in this order.
    pub open spec fn set_all(self, calls: Seq<BuilderSetter<I, S, K>>) -> BuilderSettings<C, I, S, K>
        decreases calls.len(),
    {
        if calls.len() == 0 {
            self
        } else {
            self.set_all(calls.drop_last()).set(calls.last())
        }
    }
}

impl<C, I, S, K> View for TlsConnectorBuilder<C, I, S, K> {
    type V = BuilderSettings<C, I, S, K>;

    closed spec fn view(&self) -> BuilderSettings<C, I, S, K> {
        BuilderSettings {
            session_cache: *self.session_cache,
            alpn_protocol: self.alpn_protocol,
            max_version: self.max_version,
            min_version: self.min_version,
            tls_sni: self.tls_sni,
            verify_hostname: self.verify_hostname,
            identity: self.identity,
            cert_store: self.cert_store,
            cert_verification: self.cert_verification,
            keylog: self.keylog,
        }
    }
}

impl<C, I: Clone, S: Clone, K: Clone> Clone for TlsConnectorBuilder<C, I, S, K> {
    fn clone(&self) -> (r: Self)
        ensures
            r@ == (BuilderSettings {
                identity: r@.identity,
                cert_store: r@.cert_store,
                keylog: r@.keylog,
                ..self@
            }),
            cloned(self@.identity, r@.identity),
            cloned(self@.cert_store, r@.cert_store),
            cloned(self@.keylog, r@.keylog),
    {
        TlsConnectorBuilder {
            session_cache: share(&self.session_cache),
            alpn_protocol: self.alpn_protocol,
            max_version: self.max_version,
            min_version: self.min_version,
            tls_sni: self.tls_sni,
            verify_hostname: self.verify_hostname,
            identity: self.identity.clone(),
            cert_store: self.cert_store.clone(),
            cert_verification: self.cert_verification,
            keylog: self.keylog.clone(),
        }
    }
}

/// The one-item list of an item that is there.
pub open spec fn given<T>(condition: bool, item: T) -> Seq<T> {
    if condition {
        seq![item]
    } else {
        Seq::empty()
    }
}

/// The one-item list of what is made of a value that is there.
pub open spec fn for_some<V, T>(value: Option<V>, make: spec_fn(V) -> T) -> Seq<T> {
    match value {
        Some(value) => seq![make(value)],
        None => Seq::empty(),
    }
}

/// The first of two optional values that is there.
pub open spec fn first_of<V>(preferred: Option<V>, otherwise: Option<V>) -> Option<V> {
    match preferred {
        Some(value) => Some(value),
        None => otherwise,
    }
}

/// The text of an optional string.
pub open spec fn maybe_text(value: Option<Cow<'static, str>>) -> Option<Seq<char>> {
    match value {
        Some(value) => Some(value@),
        None => None,
    }
}

impl<C, I, S, K> BuilderSettings<C, I, S, K> {
    /// The calls that create a context and say whom it trusts and who it is.
    pub open spec fn trust_calls(self, opts: TlsOptions) -> Seq<ContextCall<C, I, S, K>> {
        seq![
            ContextCall::Create,
            ContextCall::CertStore(self.cert_store),
            ContextCall::CertVerification(self.cert_verification),
            ContextCall::CertificateCompression(listed(opts.certificate_compression_algorithms)),
        ] + for_some(self.identity, |identity: I| ContextCall::<C, I, S, K>::Identity(identity))
    }

    /// The calls that set protocol versions and switch features on and off.
    pub open spec fn feature_calls(self, opts: TlsOptions) -> Seq<ContextCall<C, I, S, K>> {
        seq![
            ContextCall::MinProtoVersion(first_of(opts.min_tls_version, self.min_version)),
            ContextCall::<C, I, S, K>::MaxProtoVersion(
                first_of(opts.max_tls_version, self.max_version),
            ),
        ] + given(opts.enable_ocsp_stapling, ContextCall::OcspStapling) + given(
            opts.enable_signed_cert_timestamps,
            ContextCall::SignedCertTimestamps,
        ) + given(!opts.session_ticket, ContextCall::SwitchOff(SwitchOff::Ticket)) + given(
            !opts.psk_dhe_ke,
            ContextCall::SwitchOff(SwitchOff::PskDheKe),
        ) + given(!opts.renegotiation, ContextCall::SwitchOff(SwitchOff::Renegotiation)) + for_some(
            opts.grease_enabled,
            |on: bool| ContextCall::GreaseEnabled(on),
        ) + for_some(opts.permute_extensions, |on: bool| ContextCall::PermuteExtensions(on))
    }

    /// The calls that shape what the client offers.
    pub open spec fn offer_calls(self, opts: TlsOptions) -> Seq<ContextCall<C, I, S, K>> {
        for_some(
            maybe_text(opts.curves_list),
            |list: Seq<char>| ContextCall::<C, I, S, K>::CurvesList(list),
        ) + for_some(
            maybe_text(opts.sigalgs_list),
            |list: Seq<char>| ContextCall::SigalgsList(list),
        ) + for_some(
            opts.preserve_tls13_cipher_list,
            |on: bool| ContextCall::PreserveTls13CipherList(on),
        ) + for_some(
            maybe_text(opts.cipher_list),
            |list: Seq<char>| ContextCall::CipherList(list),
        ) + for_some(
            maybe_text(opts.delegated_credentials),
            |list: Seq<char>| ContextCall::DelegatedCredentials(list),
        ) + for_some(
            opts.record_size_limit,
            |limit: u16| ContextCall::RecordSizeLimit(limit),
        ) + for_some(opts.key_shares_limit, |limit: u8| ContextCall::KeySharesLimit(limit))
            + for_some(opts.aes_hw_override, |on: bool| ContextCall::AesHwOverride(on)) + for_some(
            listed(opts.extension_permutation),
            |order: Seq<ExtensionType>| ContextCall::ExtensionPermutation(order),
        )
    }

    /// The calls that install what watches a connection.
    pub open spec fn watch_calls(self, opts: TlsOptions) -> Seq<ContextCall<C, I, S, K>> {
        for_some(self.keylog, |policy: K| ContextCall::<C, I, S, K>::Keylog(policy)) + given(
            opts.pre_shared_key,
            ContextCall::ClientSessionCacheMode,
        ) + given(opts.pre_shared_key, ContextCall::NewSessionCallback(self.session_cache)) + seq![
            ContextCall::MessageCallback,
            ContextCall::VerifyCallback,
        ]
    }

    /// All calls on the way to a context, in order.
    pub open spec fn context_calls(self, opts: TlsOptions) -> Seq<ContextCall<C, I, S, K>> {
        self.trust_calls(opts) + self.feature_calls(opts) + self.offer_calls(opts)
            + self.watch_calls(opts)
    }

    /// The settings of the connections that are made with the context.
    pub open spec fn handshake_settings(self, opts: TlsOptions) -> HandshakeSettings {
        HandshakeSettings {
            no_ticket: opts.psk_skip_session_ticket,
            enable_ech_grease: opts.enable_ech_grease,
            verify_hostname: self.verify_hostname,
            tls_sni: self.tls_sni,
            alpn_protocols: match self.alpn_protocol {
                Some(protocol) => Some(seq![protocol]),
                None => listed(opts.alpn_protocols),
            },
            alps_protocols: listed(opts.alps_protocols),
            alps_use_new_codepoint: opts.alps_use_new_codepoint,
            random_aes_hw_override: opts.random_aes_hw_override,
        }
    }

    /// The cache that connections look for sessions in.
    pub open spec fn connection_cache(self, opts: TlsOptions) -> Option<C> {
        if opts.pre_shared_key {
            Some(self.session_cache)
        } else {
            None
        }
    }
}

/// The settings of a builder that nothing was set on.
pub open spec fn default_builder_settings<C, I, S, K>(session_cache: C) -> BuilderSettings<
    C,
    I,
    S,
    K,
> {
    BuilderSettings {
        session_cache,
        alpn_protocol: None,
        max_version: None,
        min_version: None,
        tls_sni: true,
        verify_hostname: true,
        identity: None,
        cert_store: None,
        cert_verification: true,
        keylog: None,
    }
}

/// What the steps of a list ask for.
pub open spec fn asked<'a, C, I, S, K>(steps: Seq<ContextStep<'a, C, I, S, K>>) -> Seq<
    ContextCall<C, I, S, K>,
> {
    steps.map_values(|step: ContextStep<'a, C, I, S, K>| step@)
}

/// Asks for one more call, if there is one to ask for.
fn ask<'a, C, I, S, K>(
    steps: &mut Vec<ContextStep<'a, C, I, S, K>>,
    step: Option<ContextStep<'a, C, I, S, K>>,
)
    ensures
        asked(final(steps)@) == asked(old(steps)@) + for_some(
            step,
            |step: ContextStep<'a, C, I, S, K>| step@,
        ),
{
    if let Some(step) = step {
        steps.push(step);
    }
    assert(asked(steps@) =~= asked(old(steps)@) + for_some(
        step,
        |step: ContextStep<'a, C, I, S, K>| step@,
    ));
}

/// Asks for one more call on a condition.
fn ask_if<'a, C, I, S, K>(
    steps: &mut Vec<ContextStep<'a, C, I, S, K>>,
    condition: bool,
    step: ContextStep<'a, C, I, S, K>,
)
    ensures
        asked(final(steps)@) == asked(old(steps)@) + given(condition, step@),
{
    if condition {
        steps.push(step);
    }
    assert(asked(steps@) =~= asked(old(steps)@) + given(condition, step@));
}

/// A context that is being set up: the calls that are still to be made, and
/// what the connector is made with once they all went well.
pub struct ContextSetup<'a, C, I, S, K> {
    queue: StepQueue<ContextStep<'a, C, I, S, K>>,
    cache: Option<Arc<C>>,
    config: HandshakeConfig,
}

/// What a [`ContextSetup`] holds.
#[verifier::ext_equal]
pub struct ContextProgress<C, I, S, K> {
    pub calls: QueueState<ContextCall<C, I, S, K>>,
    pub cache: Option<C>,
    pub config: HandshakeSettings,
}

/// The value behind an optional shared handle.
pub open spec fn maybe_shared<T>(value: Option<Arc<T>>) -> Option<T> {
    match value {
        Some(value) => Some(*value),
        None => None,
    }
}

impl<'a, C, I, S, K> View for ContextSetup<'a, C, I, S, K> {
    type V = ContextProgress<C, I, S, K>;

    closed spec fn view(&self) -> ContextProgress<C, I, S, K> {
        ContextProgress {
            calls: QueueState {
                pending: asked(self.queue@.pending),
                failed: self.queue@.failed,
            },
            cache: maybe_shared(self.cache),
            config: self.config@,
        }
    }
}

impl<C, I, S, K> ContextProgress<C, I, S, K> {
    /// The setup after the next call went well, or failed.
    pub open spec fn after_call(self, went_well: bool) -> ContextProgress<C, I, S, K> {
        ContextProgress {
            calls: if went_well {
                self.calls.after_success(Seq::empty())
            } else {
                self.calls.after_failure()
            },
            ..self
        }
    }
}

impl<'a, C, I, S, K> ContextSetup<'a, C, I, S, K> {
    #[verifier::type_invariant]
    spec fn wf(self) -> bool {
        self.queue@.wf()
    }

    /// The call to make next; `None` if all were made or one failed.
    pub fn next(&self) -> (r: Option<&ContextStep<'a, C, I, S, K>>)
        ensures
            r is Some <==> self@.calls.pending.len() > 0,
            r matches Some(step) ==> step@ == self@.calls.pending[0],
    {
        self.queue.next()
    }

    /// Says how the next call went.
    pub fn report(self, went_well: bool) -> (r: Self)
        requires
            self@.calls.pending.len() > 0,
        ensures
            r@ == self@.after_call(went_well),
    {
        proof {
            use_type_invariant(&self);
        }
        let mut queue = self.queue;
        let ghost before = queue@.pending;
        if went_well {
            queue.succeed(Vec::new());
            assert(asked(queue@.pending) =~= Seq::empty() + asked(before).drop_first());
        } else {
            queue.fail();
            assert(asked(queue@.pending) =~= Seq::empty());
        }
        ContextSetup { queue, cache: self.cache, config: self.config }
    }

    /// The connector with the context that was set up; `None` unless every call
    /// was made and went well.
    pub fn finish<L>(self, ssl: L) -> (r: Option<TlsConnector<L, C>>)
        ensures
            r is Some <==> self@.calls.complete(),
            r matches Some(connector) ==> {
                &&& connector.inner_spec().context() == ssl
                &&& connector.inner_spec().session_cache() == self@.cache
                &&& connector.inner_spec().settings() == self@.config
            },
    {
        if self.queue.is_complete() {
            assert(asked(self.queue@.pending) =~= Seq::empty());
            Some(TlsConnector::new(Inner::new(ssl, self.cache, self.config)))
        } else {
            None
        }
    }
}

impl<C, I, S, K> TlsConnectorBuilder<C, I, S, K> {
    pub(crate) fn new(session_cache: C) -> (r: Self)
        ensures
            r@ == default_builder_settings::<C, I, S, K>(session_cache),
    {
        TlsConnectorBuilder {
            session_cache: Arc::new(session_cache),
            alpn_protocol: None,
            min_version: None,
            max_version: None,
            identity: None,
            cert_store: None,
            cert_verification: true,
            tls_sni: true,
            verify_hostname: true,
            keylog: None,
        }
    }

    /// Sets the alpn protocol to be used.
    pub fn alpn_protocol(self, protocol: Option<AlpnProtocol>) -> (r: Self)
        ensures
            r@ == self@.set(BuilderSetter::AlpnProtocol(protocol)),
    {
        TlsConnectorBuilder { alpn_protocol: protocol, ..self }
    }

    /// Sets the TLS keylog policy.
    pub fn keylog(self, keylog: Option<K>) -> (r: Self)
        ensures
            r@ == self@.set(BuilderSetter::Keylog(keylog)),
    {
        TlsConnectorBuilder { keylog, ..self }
    }

    /// Sets the identity to be used for client certificate authentication.
    pub fn identity(self, identity: Option<I>) -> (r: Self)
        ensures
            r@ == self@.set(BuilderSetter::Identity(identity)),
    {
        TlsConnectorBuilder { identity, ..self }
    }

    /// Sets the certificate store used for TLS verification.
    pub fn cert_store(self, cert_store: Option<S>) -> (r: Self)
        ensures
            r@ == self@.set(BuilderSetter::CertStore(cert_store)),
    {
        TlsConnectorBuilder { cert_store, ..self }
    }

    /// Sets the certificate verification flag.
    pub fn cert_verification(self, enabled: bool) -> (r: Self)
        ensures
            r@ == self@.set(BuilderSetter::CertVerification(enabled)),
    {
        TlsConnectorBuilder { cert_verification: enabled, ..self }
    }

    /// Sets the minimum TLS version to use.
    pub fn min_version(self, version: Option<TlsVersion>) -> (r: Self)
        ensures
            r@ == self@.set(BuilderSetter::MinVersion(version)),
    {
        TlsConnectorBuilder { min_version: version, ..self }
    }

    /// Sets the maximum TLS version to use.
    pub fn max_version(self, version: Option<TlsVersion>) -> (r: Self)
        ensures
            r@ == self@.set(BuilderSetter::MaxVersion(version)),
    {
        TlsConnectorBuilder { max_version: version, ..self }
    }

    /// Sets the Server Name Indication (SNI) flag.
    pub fn tls_sni(self, enabled: bool) -> (r: Self)
        ensures
            r@ == self@.set(BuilderSetter::TlsSni(enabled)),
    {
        TlsConnectorBuilder { tls_sni: enabled, ..self }
    }

    /// Sets the hostname verification flag.
    pub fn verify_hostname(self, enabled: bool) -> (r: Self)
        ensures
            r@ == self@.set(BuilderSetter::VerifyHostname(enabled)),
    {
        TlsConnectorBuilder { verify_hostname: enabled, ..self }
    }

    fn trust_steps<'a>(&'a self, opts: &'a TlsOptions) -> (steps: Vec<ContextStep<'a, C, I, S, K>>)
        ensures
            asked(steps@) == self@.trust_calls(*opts),
    {
        let mut steps: Vec<ContextStep<'a, C, I, S, K>> = Vec::new();
        let algorithms = match &opts.certificate_compression_algorithms {
            Some(algorithms) => Some(items(algorithms)),
            None => None,
        };
        steps.push(ContextStep::Create);
        steps.push(ContextStep::CertStore(self.cert_store.as_ref()));
        steps.push(ContextStep::CertVerification(self.cert_verification));
        steps.push(ContextStep::CertificateCompression(algorithms));
        if let Some(identity) = &self.identity {
            steps.push(ContextStep::Identity(identity));
        }
        assert(asked(steps@) =~= self@.trust_calls(*opts));
        steps
    }

    fn feature_steps<'a>(&'a self, opts: &'a TlsOptions) -> (steps: Vec<ContextStep<'a, C, I, S, K>>)
        ensures
            asked(steps@) == self@.feature_calls(*opts),
    {
        // Replace the default configuration with the provided one
        let min_version = match opts.min_tls_version {
            Some(version) => Some(version),
            None => self.min_version,
        };
        let max_version = match opts.max_tls_version {
            Some(version) => Some(version),
            None => self.max_version,
        };
        let mut steps: Vec<ContextStep<'a, C, I, S, K>> = Vec::new();
        steps.push(ContextStep::MinProtoVersion(min_version));
        steps.push(ContextStep::MaxProtoVersion(max_version));
        assert(asked(steps@) =~= seq![
            ContextCall::<C, I, S, K>::MinProtoVersion(min_version),
            ContextCall::<C, I, S, K>::MaxProtoVersion(max_version),
        ]);
        ask_if(&mut steps, opts.enable_ocsp_stapling, ContextStep::OcspStapling);
        ask_if(&mut steps, opts.enable_signed_cert_timestamps, ContextStep::SignedCertTimestamps);
        ask_if(&mut steps, !opts.session_ticket, ContextStep::SwitchOff(SwitchOff::Ticket));
        ask_if(&mut steps, !opts.psk_dhe_ke, ContextStep::SwitchOff(SwitchOff::PskDheKe));
        ask_if(&mut steps, !opts.renegotiation, ContextStep::SwitchOff(SwitchOff::Renegotiation));
        let step = match opts.grease_enabled {
            Some(on) => Some(ContextStep::GreaseEnabled(on)),
            None => None,
        };
        ask(&mut steps, step);
        let step = match opts.permute_extensions {
            Some(on) => Some(ContextStep::PermuteExtensions(on)),
            None => None,
        };
        ask(&mut steps, step);
        steps
    }

    fn offer_steps<'a>(&'a self, opts: &'a TlsOptions) -> (steps: Vec<ContextStep<'a, C, I, S, K>>)
        ensures
            asked(steps@) == self@.offer_calls(*opts),
    {
        let mut steps: Vec<ContextStep<'a, C, I, S, K>> = Vec::new();
        if let Some(list) = &opts.curves_list {
            steps.push(ContextStep::CurvesList(text(list)));
        }
        assert(asked(steps@) =~= for_some(
            maybe_text(opts.curves_list),
            |list: Seq<char>| ContextCall::<C, I, S, K>::CurvesList(list),
        ));
        let step = match &opts.sigalgs_list {
            Some(list) => Some(ContextStep::SigalgsList(text(list))),
            None => None,
        };
        ask(&mut steps, step);
        let step = match opts.preserve_tls13_cipher_list {
            Some(on) => Some(ContextStep::PreserveTls13CipherList(on)),
            None => None,
        };
        ask(&mut steps, step);
        let step = match &opts.cipher_list {
            Some(list) => Some(ContextStep::CipherList(text(list))),
            None => None,
        };
        ask(&mut steps, step);
        let step = match &opts.delegated_credentials {
            Some(list) => Some(ContextStep::DelegatedCredentials(text(list))),
            None => None,
        };
        ask(&mut steps, step);
        let step = match opts.record_size_limit {
            Some(limit) => Some(ContextStep::RecordSizeLimit(limit)),
            None => None,
        };
        ask(&mut steps, step);
        let step = match opts.key_shares_limit {
            Some(limit) => Some(ContextStep::KeySharesLimit(limit)),
            None => None,
        };
        ask(&mut steps, step);
        let step = match opts.aes_hw_override {
            Some(on) => Some(ContextStep::AesHwOverride(on)),
            None => None,
        };
        ask(&mut steps, step);
        let step = match &opts.extension_permutation {
            Some(order) => Some(ContextStep::ExtensionPermutation(items(order))),
            None => None,
        };
        ask(&mut steps, step);
        steps
    }

    fn watch_steps<'a>(&'a self, opts: &'a TlsOptions) -> (steps: Vec<ContextStep<'a, C, I, S, K>>)
        ensures
            asked(steps@) == self@.watch_calls(*opts),
    {
        let mut steps: Vec<ContextStep<'a, C, I, S, K>> = Vec::new();
        if let Some(policy) = &self.keylog {
            steps.push(ContextStep::Keylog(policy));
        }
        if opts.pre_shared_key {
            steps.push(ContextStep::ClientSessionCacheMode);
            steps.push(ContextStep::NewSessionCallback(&self.session_cache));
        }
        steps.push(ContextStep::MessageCallback);
        steps.push(ContextStep::VerifyCallback);
        assert(asked(steps@) =~= self@.watch_calls(*opts));
        steps
    }

    fn handshake_config(&self, opts: &TlsOptions) -> (r: HandshakeConfig)
        ensures
            r@ == self@.handshake_settings(*opts),
    {
        let alpn_protocols = match self.alpn_protocol {
            Some(protocol) => {
                let mut list: Vec<AlpnProtocol> = Vec::new();
                list.push(protocol);
                assert(list@ =~= seq![protocol]);
                Some(Cow::Owned(list))
            },
            None => copy_list(&opts.alpn_protocols),
        };
        HandshakeConfig::builder().no_ticket(opts.psk_skip_session_ticket).alpn_protocols(
            alpn_protocols,
        ).alps_protocols(copy_list(&opts.alps_protocols)).alps_use_new_codepoint(
            opts.alps_use_new_codepoint,
        ).enable_ech_grease(opts.enable_ech_grease).tls_sni(self.tls_sni).verify_hostname(
            self.verify_hostname,
        ).random_aes_hw_override(opts.random_aes_hw_override).build()
    }

    /// Decides on the calls that set up a context with the provided
    /// configuration, and on what the `TlsConnector` is made with.
    pub fn build<'a>(&'a self, opts: &'a TlsOptions) -> (r: ContextSetup<'a, C, I, S, K>)
        ensures
            r@ == (ContextProgress {
                calls: QueueState { pending: self@.context_calls(*opts), failed: false },
                cache: self@.connection_cache(*opts),
                config: self@.handshake_settings(*opts),
            }),
    {
        let mut steps = self.trust_steps(opts);
        let mut features = self.feature_steps(opts);
        let mut offer = self.offer_steps(opts);
        let mut watch = self.watch_steps(opts);
        let ghost parts = (steps@, features@, offer@, watch@);
        steps.append(&mut features);
        steps.append(&mut offer);
        steps.append(&mut watch);
        assert(asked(steps@) =~= asked(parts.0) + asked(parts.1) + asked(parts.2) + asked(parts.3));
        let cache = if opts.pre_shared_key {
            Some(share(&self.session_cache))
        } else {
            None
        };
        ContextSetup {
            queue: StepQueue::new(steps),
            cache,
            config: self.handshake_config(opts),
        }
    }
}

/// Every context watches the messages and the chain of its connections, whatever
/// the builder and the options say, certificate verification included; these are
/// the last two calls.
pub proof fn law_capture_is_always_installed<C, I, S, K>(
    builder: BuilderSettings<C, I, S, K>,
    opts: TlsOptions,
)
    ensures
        ({
            let calls = builder.context_calls(opts);
            &&& calls.len() >= 2
            &&& calls[calls.len() - 2] == ContextCall::<C, I, S, K>::MessageCallback
            &&& calls[calls.len() - 1] == ContextCall::<C, I, S, K>::VerifyCallback
        }),
{
    let watch = builder.watch_calls(opts);
    assert(watch[watch.len() - 2] == ContextCall::<C, I, S, K>::MessageCallback);
    assert(watch[watch.len() - 1] == ContextCall::<C, I, S, K>::VerifyCallback);
}

/// Turning certificate verification on or off changes the one call that asks for
/// it, and nothing else of a connector.
pub proof fn law_cert_verification_changes_one_call<C, I, S, K>(
    builder: BuilderSettings<C, I, S, K>,
    opts: TlsOptions,
    enabled: bool,
)
    ensures
        ({
            let other = BuilderSettings { cert_verification: enabled, ..builder };
            &&& other.context_calls(opts) == builder.context_calls(opts).update(
                2,
                ContextCall::CertVerification(enabled),
            )
            &&& other.handshake_settings(opts) == builder.handshake_settings(opts)
            &&& other.connection_cache(opts) == builder.connection_cache(opts)
        }),
{
    let other = BuilderSettings { cert_verification: enabled, ..builder };
    assert(other.trust_calls(opts) =~= builder.trust_calls(opts).update(
        2,
        ContextCall::CertVerification(enabled),
    ));
    assert(other.feature_calls(opts) == builder.feature_calls(opts));
    assert(other.offer_calls(opts) == builder.offer_calls(opts));
    assert(other.watch_calls(opts) == builder.watch_calls(opts));
    assert(other.context_calls(opts) =~= builder.context_calls(opts).update(
        2,
        ContextCall::CertVerification(enabled),
    ));
}

/// Protocol versions of the options replace those of the builder, which hold
/// where the options name none.
pub proof fn law_versions_of_the_options_win<C, I, S, K>(
    builder: BuilderSettings<C, I, S, K>,
    opts: TlsOptions,
)
    ensures
        ({
            let calls = builder.context_calls(opts);
            let at = builder.trust_calls(opts).len() as int;
            &&& calls[at] == ContextCall::<C, I, S, K>::MinProtoVersion(
                if opts.min_tls_version is Some {
                    opts.min_tls_version
                } else {
                    builder.min_version
                },
            )
            &&& calls[at + 1] == ContextCall::<C, I, S, K>::MaxProtoVersion(
                if opts.max_tls_version is Some {
                    opts.max_tls_version
                } else {
                    builder.max_version
                },
            )
        }),
{
    let at = builder.trust_calls(opts).len() as int;
    assert(builder.context_calls(opts)[at] == builder.feature_calls(opts)[0]);
    assert(builder.context_calls(opts)[at + 1] == builder.feature_calls(opts)[1]);
}

/// A protocol of the builder is the only one that its connections offer, whatever
/// the options list.
pub proof fn law_protocol_of_the_builder_wins<C, I, S, K>(
    builder: BuilderSettings<C, I, S, K>,
    opts: TlsOptions,
    protocol: AlpnProtocol,
)
    requires
        builder.alpn_protocol == Some(protocol),
    ensures
        builder.handshake_settings(opts).alpn_protocols == Some(seq![protocol]),
        crate::connect::offered_alpn(builder.handshake_settings(opts), None) == Some(
            crate::alpn::wire_name(protocol@),
        ),
{
    crate::alpn::law_single_name_encodes_as_a_list(protocol);
}

/// Whether the options switch a feature off.
pub open spec fn switches_off(opts: TlsOptions, feature: SwitchOff) -> bool {
    match feature {
        SwitchOff::Ticket => !opts.session_ticket,
        SwitchOff::PskDheKe => !opts.psk_dhe_ke,
        SwitchOff::Renegotiation => !opts.renegotiation,
    }
}

proof fn lemma_contained_in_one_of_three<T>(a: Seq<T>, b: Seq<T>, c: Seq<T>, item: T)
    ensures
        (a + b + c).contains(item) <==> a.contains(item) || b.contains(item) || c.contains(item),
{
    vstd::seq_lib::lemma_seq_concat_contains_all_elements(a + b, c, item);
    vstd::seq_lib::lemma_seq_concat_contains_all_elements(a, b, item);
}

proof fn lemma_given_contains<T>(condition: bool, value: T, item: T)
    ensures
        given(condition, value).contains(item) <==> condition && value == item,
{
    if condition {
        assert(given(condition, value)[0] == value);
    }
}

/// A feature is switched off exactly if the options say so.
pub proof fn law_features_are_switched_off_as_told<C, I, S, K>(
    builder: BuilderSettings<C, I, S, K>,
    opts: TlsOptions,
    feature: SwitchOff,
)
    ensures
        builder.context_calls(opts).contains(ContextCall::SwitchOff(feature)) <==> switches_off(
            opts,
            feature,
        ),
{
    let call = ContextCall::<C, I, S, K>::SwitchOff(feature);
    let trust = builder.trust_calls(opts);
    let features = builder.feature_calls(opts);
    let offer = builder.offer_calls(opts);
    let watch = builder.watch_calls(opts);
    lemma_contained_in_one_of_three(trust, features, offer, call);
    vstd::seq_lib::lemma_seq_concat_contains_all_elements(trust + features + offer, watch, call);
    lemma_trust_calls_contain_neither(builder, opts, call);
    lemma_feature_calls_contain(builder, opts, call);
    lemma_offer_calls_contain_neither(builder, opts, call);
    assert(!watch.contains(call));
}

/// A call that switches a feature off, or that asks for new sessions to be kept.
spec fn switches_or_keeps<C, I, S, K>(call: ContextCall<C, I, S, K>) -> bool {
    call is SwitchOff || call is NewSessionCallback
}

proof fn lemma_trust_calls_contain_neither<C, I, S, K>(
    builder: BuilderSettings<C, I, S, K>,
    opts: TlsOptions,
    call: ContextCall<C, I, S, K>,
)
    requires
        switches_or_keeps(call),
    ensures
        !builder.trust_calls(opts).contains(call),
{
}

proof fn lemma_feature_calls_contain<C, I, S, K>(
    builder: BuilderSettings<C, I, S, K>,
    opts: TlsOptions,
    call: ContextCall<C, I, S, K>,
)
    requires
        switches_or_keeps(call),
    ensures
        builder.feature_calls(opts).contains(call) <==> (call matches ContextCall::SwitchOff(
            feature,
        ) && switches_off(opts, feature)),
{
    let versions = seq![
        ContextCall::MinProtoVersion(first_of(opts.min_tls_version, builder.min_version)),
        ContextCall::<C, I, S, K>::MaxProtoVersion(
            first_of(opts.max_tls_version, builder.max_version),
        ),
    ];
    let ocsp = given(opts.enable_ocsp_stapling, ContextCall::<C, I, S, K>::OcspStapling);
    let sct = given(
        opts.enable_signed_cert_timestamps,
        ContextCall::<C, I, S, K>::SignedCertTimestamps,
    );
    let ticket = given(
        !opts.session_ticket,
        ContextCall::<C, I, S, K>::SwitchOff(SwitchOff::Ticket),
    );
    let psk = given(!opts.psk_dhe_ke, ContextCall::<C, I, S, K>::SwitchOff(SwitchOff::PskDheKe));
    let renegotiation = given(
        !opts.renegotiation,
        ContextCall::<C, I, S, K>::SwitchOff(SwitchOff::Renegotiation),
    );
    let grease = for_some(
        opts.grease_enabled,
        |on: bool| ContextCall::<C, I, S, K>::GreaseEnabled(on),
    );
    let permute = for_some(
        opts.permute_extensions,
        |on: bool| ContextCall::<C, I, S, K>::PermuteExtensions(on),
    );
    let head = versions + ocsp + sct;
    let middle = head + ticket + psk;
    let tail = middle + renegotiation + grease;
    assert(!versions.contains(call));
    assert(!head.contains(call)) by {
        lemma_contained_in_one_of_three(versions, ocsp, sct, call);
        lemma_given_contains(opts.enable_ocsp_stapling, ContextCall::OcspStapling, call);
        lemma_given_contains(
            opts.enable_signed_cert_timestamps,
            ContextCall::SignedCertTimestamps,
            call,
        );
    }
    assert(middle.contains(call) <==> (call matches ContextCall::SwitchOff(feature) && feature
        != SwitchOff::Renegotiation && switches_off(opts, feature))) by {
        lemma_contained_in_one_of_three(head, ticket, psk, call);
        lemma_given_contains(!opts.session_ticket, ContextCall::SwitchOff(SwitchOff::Ticket), call);
        lemma_given_contains(!opts.psk_dhe_ke, ContextCall::SwitchOff(SwitchOff::PskDheKe), call);
    }
    assert(!grease.contains(call));
    assert(!permute.contains(call));
    assert(tail.contains(call) <==> (call matches ContextCall::SwitchOff(feature) && switches_off(
        opts,
        feature,
    ))) by {
        lemma_contained_in_one_of_three(middle, renegotiation, grease, call);
        lemma_given_contains(
            !opts.renegotiation,
            ContextCall::SwitchOff(SwitchOff::Renegotiation),
            call,
        );
    }
    vstd::seq_lib::lemma_seq_concat_contains_all_elements(tail, permute, call);
}

proof fn lemma_offer_calls_contain_neither<C, I, S, K>(
    builder: BuilderSettings<C, I, S, K>,
    opts: TlsOptions,
    call: ContextCall<C, I, S, K>,
)
    requires
        switches_or_keeps(call),
    ensures
        !builder.offer_calls(opts).contains(call),
{
    let curves = for_some(
        maybe_text(opts.curves_list),
        |list: Seq<char>| ContextCall::<C, I, S, K>::CurvesList(list),
    );
    let sigalgs = for_some(
        maybe_text(opts.sigalgs_list),
        |list: Seq<char>| ContextCall::<C, I, S, K>::SigalgsList(list),
    );
    let preserve = for_some(
        opts.preserve_tls13_cipher_list,
        |on: bool| ContextCall::<C, I, S, K>::PreserveTls13CipherList(on),
    );
    let ciphers = for_some(
        maybe_text(opts.cipher_list),
        |list: Seq<char>| ContextCall::<C, I, S, K>::CipherList(list),
    );
    let delegated = for_some(
        maybe_text(opts.delegated_credentials),
        |list: Seq<char>| ContextCall::<C, I, S, K>::DelegatedCredentials(list),
    );
    let record = for_some(
        opts.record_size_limit,
        |limit: u16| ContextCall::<C, I, S, K>::RecordSizeLimit(limit),
    );
    let shares = for_some(
        opts.key_shares_limit,
        |limit: u8| ContextCall::<C, I, S, K>::KeySharesLimit(limit),
    );
    let aes = for_some(
        opts.aes_hw_override,
        |on: bool| ContextCall::<C, I, S, K>::AesHwOverride(on),
    );
    let order = for_some(
        listed(opts.extension_permutation),
        |order: Seq<ExtensionType>| ContextCall::<C, I, S, K>::ExtensionPermutation(order),
    );
    let head = curves + sigalgs + preserve;
    let middle = head + ciphers + delegated;
    let tail = middle + record + shares;
    assert(builder.offer_calls(opts) == tail + aes + order);
    lemma_contained_in_one_of_three(curves, sigalgs, preserve, call);
    lemma_contained_in_one_of_three(head, ciphers, delegated, call);
    lemma_contained_in_one_of_three(middle, record, shares, call);
    lemma_contained_in_one_of_three(tail, aes, order, call);
}

/// New sessions are kept exactly where connections look for them: in the cache of
/// the builder if the options allow pre-shared keys, and nowhere if they do not.
pub proof fn law_sessions_are_kept_where_they_are_looked_for<C, I, S, K>(
    builder: BuilderSettings<C, I, S, K>,
    opts: TlsOptions,
    cache: C,
)
    ensures
        builder.context_calls(opts).contains(ContextCall::NewSessionCallback(cache))
            <==> builder.connection_cache(opts) == Some(cache),
        builder.connection_cache(opts) is Some <==> opts.pre_shared_key,
{
    let call = ContextCall::<C, I, S, K>::NewSessionCallback(cache);
    let trust = builder.trust_calls(opts);
    let features = builder.feature_calls(opts);
    let offer = builder.offer_calls(opts);
    let watch = builder.watch_calls(opts);
    lemma_contained_in_one_of_three(trust, features, offer, call);
    vstd::seq_lib::lemma_seq_concat_contains_all_elements(trust + features + offer, watch, call);
    lemma_trust_calls_contain_neither(builder, opts, call);
    lemma_feature_calls_contain(builder, opts, call);
    lemma_offer_calls_contain_neither(builder, opts, call);
    if opts.pre_shared_key {
        let at = if builder.keylog is Some {
            2int
        } else {
            1int
        };
        assert(watch[at] == ContextCall::<C, I, S, K>::NewSessionCallback(builder.session_cache));
    }
}

/// Whatever setters of a builder are called, and in whatever order: each field holds
/// the argument of the last call of the setter of its name, or what it held before if
/// there was none. The session cache stays the same.
pub proof fn law_last_call_of_each_builder_setter_counts<C, I, S, K>(
    settings: BuilderSettings<C, I, S, K>,
    calls: Seq<BuilderSetter<I, S, K>>,
)
    ensures
        settings.set_all(calls).alpn_protocol == last_argument(
            calls,
            |call: BuilderSetter<I, S, K>|
                match call {
                    BuilderSetter::AlpnProtocol(argument) => Some(argument),
                    _ => None,
                },
            settings.alpn_protocol,
        ),
        settings.set_all(calls).max_version == last_argument(
            calls,
            |call: BuilderSetter<I, S, K>|
                match call {
                    BuilderSetter::MaxVersion(argument) => Some(argument),
                    _ => None,
                },
            settings.max_version,
        ),
        settings.set_all(calls).min_version == last_argument(
            calls,
            |call: BuilderSetter<I, S, K>|
                match call {
                    BuilderSetter::MinVersion(argument) => Some(argument),
                    _ => None,
                },
            settings.min_version,
        ),
        settings.set_all(calls).tls_sni == last_argument(
            calls,
            |call: BuilderSetter<I, S, K>|
                match call {
                    BuilderSetter::TlsSni(argument) => Some(argument),
                    _ => None,
                },
            settings.tls_sni,
        ),
        settings.set_all(calls).verify_hostname == last_argument(
            calls,
            |call: BuilderSetter<I, S, K>|
                match call {
                    BuilderSetter::VerifyHostname(argument) => Some(argument),
                    _ => None,
                },
            settings.verify_hostname,
        ),
        settings.set_all(calls).identity == last_argument(
            calls,
            |call: BuilderSetter<I, S, K>|
                match call {
                    BuilderSetter::Identity(argument) => Some(argument),
                    _ => None,
                },
            settings.identity,
        ),
        settings.set_all(calls).cert_store == last_argument(
            calls,
            |call: BuilderSetter<I, S, K>|
                match call {
                    BuilderSetter::CertStore(argument) => Some(argument),
                    _ => None,
                },
            settings.cert_store,
        ),
        settings.set_all(calls).cert_verification == last_argument(
            calls,
            |call: BuilderSetter<I, S, K>|
                match call {
                    BuilderSetter::CertVerification(argument) => Some(argument),
                    _ => None,
                },
            settings.cert_verification,
        ),
        settings.set_all(calls).keylog == last_argument(
            calls,
            |call: BuilderSetter<I, S, K>|
                match call {
                    BuilderSetter::Keylog(argument) => Some(argument),
                    _ => None,
                },
            settings.keylog,
        ),
        settings.set_all(calls).session_cache == settings.session_cache,
    decreases calls.len(),
{
    if calls.len() > 0 {
        law_last_call_of_each_builder_setter_counts(settings, calls.drop_last());
    }
}

} // verus!
