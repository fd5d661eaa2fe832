//! Connectors, and the calls that set up one connection.

use http::Uri;
use std::sync::Arc;
use vstd::prelude::*;

use crate::alpn::{AlpnProtocol, AlpsProtocol};
use crate::config::{HandshakeConfig, HandshakeSettings};
use crate::context::{maybe_shared, TlsConnectorBuilder};
use crate::host::{host_to_connect_to, maybe_text};
use crate::queue::{QueueState, StepQueue};
use crate::shared::share;

verus! {

/// The number of sessions that the cache of a builder keeps.
pub const DEFAULT_SESSION_CACHE_CAPACITY: usize = 8;

/// What a connection to a URI without a host is refused with.
pub const MISSING_HOST_MESSAGE: &'static str = "URI missing host";

/// A request for a connection. `K` is the identity under which sessions of such
/// connections are kept.
pub struct ConnectRequest<K> {
    pub uri: Uri,
    /// The protocol that this request insists on.
    pub alpn_protocol: Option<AlpnProtocol>,
    pub identity: K,
}

/// A call to the TLS engine on the way to a connection.
///
/// `C` is the session cache.
#[derive(Debug)]
pub enum ConnectStep<'a, K, C> {
    /// Make a connection of the context.
    Configure,
    ServerNameIndication(bool),
    VerifyHostname(bool),
    EchGrease(bool),
    AesHwOverride(bool),
    ApplicationSettings(AlpsProtocol),
    AlpsUseNewCodepoint,
    AlpnProtos(Vec<u8>),
    /// Look into the cache for the session that is kept under the key.
    LookUpSession(&'a C, &'a K),
    /// Resume the session that was found.
    ResumeSession,
    /// Switch session tickets off for this connection.
    NoTicket,
    /// Leave the key on the connection, for new sessions to be kept under.
    LeaveKey(&'a K),
    /// Turn the connection into one to this host.
    IntoSsl(&'a str),
}

/// What a [`ConnectStep`] asks for.
pub enum ConnectCall<K, C> {
    Configure,
    ServerNameIndication(bool),
    VerifyHostname(bool),
    EchGrease(bool),
    AesHwOverride(bool),
    ApplicationSettings(Seq<u8>),
    AlpsUseNewCodepoint,
    AlpnProtos(Seq<u8>),
    LookUpSession(C, K),
    ResumeSession,
    NoTicket,
    LeaveKey(K),
    IntoSsl(Seq<char>),
}

impl<'a, K, C> View for ConnectStep<'a, K, C> {
    type V = ConnectCall<K, C>;

    open spec fn view(&self) -> ConnectCall<K, C> {
        match *self {
            ConnectStep::Configure => ConnectCall::Configure,
            ConnectStep::ServerNameIndication(on) => ConnectCall::ServerNameIndication(on),
            ConnectStep::VerifyHostname(on) => ConnectCall::VerifyHostname(on),
            ConnectStep::EchGrease(on) => ConnectCall::EchGrease(on),
            ConnectStep::AesHwOverride(on) => ConnectCall::AesHwOverride(on),
            ConnectStep::ApplicationSettings(alps) => ConnectCall::ApplicationSettings(alps@),
            ConnectStep::AlpsUseNewCodepoint => ConnectCall::AlpsUseNewCodepoint,
            ConnectStep::AlpnProtos(encoded) => ConnectCall::AlpnProtos(encoded@),
            ConnectStep::LookUpSession(cache, key) => ConnectCall::LookUpSession(*cache, *key),
            ConnectStep::ResumeSession => ConnectCall::ResumeSession,
            ConnectStep::NoTicket => ConnectCall::NoTicket,
            ConnectStep::LeaveKey(key) => ConnectCall::LeaveKey(*key),
            ConnectStep::IntoSsl(host) => ConnectCall::IntoSsl(host@),
        }
    }
}

/// How a call of a connection setup went.
#[derive(Clone, Copy, Debug, PartialEq, Eq, Structural)]
pub enum CallOutcome {
    /// It went well; if it was to look up a session, there was none.
    Done,
    /// It was to look up a session, and one was found.
    SessionFound,
    /// It failed.
    Failed,
}

/// How far a connection setup has come.
#[derive(Clone, Copy, Debug, PartialEq, Eq, Structural)]
pub enum SetupStatus {
    /// There are calls to make.
    Running,
    /// A call failed.
    Failed,
    /// All calls that come before the host is needed went well, but the URI has
    /// no host.
    MissingHost,
    /// All calls went well.
    Ready,
}

/// What the steps of a list ask for.
pub open spec fn asked<'a, K, C>(steps: Seq<ConnectStep<'a, K, C>>) -> Seq<ConnectCall<K, C>> {
    steps.map_values(|step: ConnectStep<'a, K, C>| step@)
}

/// The calls that offer ALPS protocols: one for each, and one more for the new
/// codepoint if there are any and it is to be used.
pub open spec fn alps_calls<K, C>(settings: HandshakeSettings) -> Seq<ConnectCall<K, C>> {
    match settings.alps_protocols {
        Some(protocols) => protocols.map_values(
            |alps: AlpsProtocol| ConnectCall::<K, C>::ApplicationSettings(alps@),
        ) + (if protocols.len() > 0 && settings.alps_use_new_codepoint {
            seq![ConnectCall::AlpsUseNewCodepoint]
        } else {
            Seq::empty()
        }),
        None => Seq::empty(),
    }
}

/// What is offered through ALPN: the protocol of the request, if it has one, else
/// those of the connector, if it has any.
pub open spec fn offered_alpn(
    settings: HandshakeSettings,
    requested: Option<AlpnProtocol>,
) -> Option<Seq<u8>> {
    match requested {
        Some(protocol) => Some(crate::alpn::wire_name(protocol@)),
        None => match settings.alpn_protocols {
            Some(protocols) => Some(crate::alpn::wire_names(protocols)),
            None => None,
        },
    }
}

/// The calls that come before the host is needed.
pub open spec fn offer_calls<K, C>(
    settings: HandshakeSettings,
    requested: Option<AlpnProtocol>,
    random: u64,
) -> Seq<ConnectCall<K, C>> {
    seq![
        ConnectCall::Configure,
        ConnectCall::ServerNameIndication(settings.tls_sni),
        ConnectCall::VerifyHostname(settings.verify_hostname),
        ConnectCall::EchGrease(settings.enable_ech_grease),
    ] + (if settings.random_aes_hw_override {
        seq![ConnectCall::<K, C>::AesHwOverride(random % 2 == 0)]
    } else {
        Seq::empty()
    }) + alps_calls(settings) + (match offered_alpn(settings, requested) {
        Some(encoded) => seq![ConnectCall::AlpnProtos(encoded)],
        None => Seq::empty(),
    })
}

/// The calls that concern session resumption, before it is known whether there is
/// a session.
pub open spec fn session_calls<K, C>(cache: Option<C>, key: K) -> Seq<ConnectCall<K, C>> {
    match cache {
        Some(cache) => seq![ConnectCall::LookUpSession(cache, key), ConnectCall::LeaveKey(key)],
        None => Seq::empty(),
    }
}

/// The calls that a call asks for once it is known how it went.
pub open spec fn follow_up<K, C>(
    call: ConnectCall<K, C>,
    outcome: CallOutcome,
    no_ticket: bool,
) -> Seq<ConnectCall<K, C>> {
    if call is LookUpSession && outcome == CallOutcome::SessionFound {
        if no_ticket {
            seq![ConnectCall::ResumeSession, ConnectCall::NoTicket]
        } else {
            seq![ConnectCall::ResumeSession]
        }
    } else {
        Seq::empty()
    }
}

/// What a [`ConnectionSetup`] holds.
#[verifier::ext_equal]
pub struct ConnectProgress<K, C> {
    pub calls: QueueState<ConnectCall<K, C>>,
    pub no_ticket: bool,
    pub host_missing: bool,
}

impl<K, C> ConnectProgress<K, C> {
    /// The setup after the next call went as `outcome` says.
    pub open spec fn after_call(self, outcome: CallOutcome) -> ConnectProgress<K, C> {
        ConnectProgress {
            calls: if outcome == CallOutcome::Failed {
                self.calls.after_failure()
            } else {
                self.calls.after_success(
                    follow_up(self.calls.pending[0], outcome, self.no_ticket),
                )
            },
            ..self
        }
    }

    /// How far the setup has come.
    pub open spec fn status(self) -> SetupStatus {
        if self.calls.pending.len() > 0 {
            SetupStatus::Running
        } else if self.calls.failed {
            SetupStatus::Failed
        } else if self.host_missing {
            SetupStatus::MissingHost
        } else {
            SetupStatus::Ready
        }
    }
}

/// A setup that starts with `before_host` and, if there is a host, goes on with
/// `after_host` and the call that takes the host.
pub open spec fn setup_for<K, C>(
    before_host: Seq<ConnectCall<K, C>>,
    host: Option<Seq<char>>,
    after_host: Seq<ConnectCall<K, C>>,
    no_ticket: bool,
) -> ConnectProgress<K, C> {
    ConnectProgress {
        calls: QueueState {
            pending: match host {
                Some(host) => before_host + after_host + seq![ConnectCall::IntoSsl(host)],
                None => before_host,
            },
            failed: false,
        },
        no_ticket,
        host_missing: host is None,
    }
}

/// The setup of a plain connection to the host of a URI.
pub open spec fn plain_setup<K, C>(uri: Uri, no_ticket: bool) -> ConnectProgress<K, C> {
    setup_for(
        seq![ConnectCall::Configure],
        crate::host::connect_host(uri),
        Seq::empty(),
        no_ticket,
    )
}

/// The setup of a connection to a host, if there is one, for a request.
pub open spec fn request_setup_to<K, C>(
    settings: HandshakeSettings,
    cache: Option<C>,
    req: ConnectRequest<K>,
    host: Option<Seq<char>>,
    random: u64,
) -> ConnectProgress<K, C> {
    setup_for(
        offer_calls(settings, req.alpn_protocol, random),
        host,
        session_calls(cache, req.identity),
        settings.no_ticket,
    )
}

/// The setup of a connection to the host of a request.
pub open spec fn request_setup<K, C>(
    settings: HandshakeSettings,
    cache: Option<C>,
    req: ConnectRequest<K>,
    random: u64,
) -> ConnectProgress<K, C> {
    request_setup_to(settings, cache, req, crate::host::connect_host(req.uri), random)
}

/// A connection that is being set up: the calls that are still to be made.
pub struct ConnectionSetup<'a, K, C> {
    queue: StepQueue<ConnectStep<'a, K, C>>,
    no_ticket: bool,
    host_missing: bool,
}

impl<'a, K, C> View for ConnectionSetup<'a, K, C> {
    type V = ConnectProgress<K, C>;

    closed spec fn view(&self) -> ConnectProgress<K, C> {
        ConnectProgress {
            calls: QueueState {
                pending: asked(self.queue@.pending),
                failed: self.queue@.failed,
            },
            no_ticket: self.no_ticket,
            host_missing: self.host_missing,
        }
    }
}

impl<'a, K, C> ConnectionSetup<'a, K, C> {
    #[verifier::type_invariant]
    spec fn wf(self) -> bool {
        self.queue@.wf()
    }

    /// The call to make next; `None` if all were made or one failed.
    pub fn next(&self) -> (r: Option<&ConnectStep<'a, K, C>>)
        ensures
            r is Some <==> self@.calls.pending.len() > 0,
            r matches Some(step) ==> step@ == self@.calls.pending[0],
    {
        self.queue.next()
    }

    /// Says how the next call went.
    pub fn report(self, outcome: CallOutcome) -> (r: Self)
        requires
            self@.calls.pending.len() > 0,
        ensures
            r@ == self@.after_call(outcome),
    {
        proof {
            use_type_invariant(&self);
        }
        let mut queue = self.queue;
        let ghost before = queue@.pending;
        let looked_up = match queue.next() {
            Some(ConnectStep::LookUpSession(..)) => true,
            _ => false,
        };
        if outcome == CallOutcome::Failed {
            queue.fail();
            assert(asked(queue@.pending) =~= Seq::empty());
        } else {
            let mut more: Vec<ConnectStep<'a, K, C>> = Vec::new();
            if looked_up && outcome == CallOutcome::SessionFound {
                more.push(ConnectStep::ResumeSession);
                if self.no_ticket {
                    more.push(ConnectStep::NoTicket);
                }
            }
            assert(asked(more@) =~= follow_up(before[0]@, outcome, self.no_ticket));
            let ghost asked_for = more@;
            queue.succeed(more);
            assert(asked(queue@.pending) =~= asked(asked_for) + asked(before).drop_first());
        }
        ConnectionSetup { queue, no_ticket: self.no_ticket, host_missing: self.host_missing }
    }

    /// How far the setup has come.
    pub fn status(&self) -> (r: SetupStatus)
        ensures
            r == self@.status(),
    {
        match self.queue.next() {
            Some(_) => SetupStatus::Running,
            None => {
                if !self.queue.is_complete() {
                    SetupStatus::Failed
                } else if self.host_missing {
                    SetupStatus::MissingHost
                } else {
                    SetupStatus::Ready
                }
            },
        }
    }
}

/// What a connector makes connections with: a TLS context, a session cache and
/// the settings of each connection.
pub struct Inner<L, C> {
    ssl: L,
    cache: Option<Arc<C>>,
    config: HandshakeConfig,
}

impl<L, C> Inner<L, C> {
    /// The TLS context.
    pub closed spec fn context(self) -> L {
        self.ssl
    }

    /// The session cache, if sessions are resumed.
    pub closed spec fn session_cache(self) -> Option<C> {
        maybe_shared(self.cache)
    }

    /// The settings of each connection.
    pub closed spec fn settings(self) -> HandshakeSettings {
        self.config@
    }

    pub(crate) fn new(ssl: L, cache: Option<Arc<C>>, config: HandshakeConfig) -> (r: Self)
        ensures
            r.context() == ssl,
            r.session_cache() == maybe_shared(cache),
            r.settings() == config@,
    {
        Inner { ssl, cache, config }
    }

    /// The TLS context.
    pub fn ssl(&self) -> (r: &L)
        ensures
            *r == self.context(),
    {
        &self.ssl
    }

    fn offer_steps<'a, K>(&'a self, requested: Option<AlpnProtocol>, random: u64) -> (steps: Vec<
        ConnectStep<'a, K, C>,
    >)
        ensures
            asked(steps@) == offer_calls::<K, C>(self.settings(), requested, random),
    {
        let mut steps: Vec<ConnectStep<'a, K, C>> = Vec::new();
        steps.push(ConnectStep::Configure);
        steps.push(ConnectStep::ServerNameIndication(self.config.tls_sni()));
        steps.push(ConnectStep::VerifyHostname(self.config.verify_hostname()));
        steps.push(ConnectStep::EchGrease(self.config.enable_ech_grease()));
        if self.config.random_aes_hw_override() {
            assert(random & 1 == random % 2) by (bit_vector);
            steps.push(ConnectStep::AesHwOverride((random & 1) == 0));
        }
        let ghost first = steps@;
        let mut alps = self.alps_steps();
        let ghost alps_steps = alps@;
        steps.append(&mut alps);
        let encoded = self.encoded_alpn(requested);
        if let Some(encoded) = encoded {
            steps.push(ConnectStep::AlpnProtos(encoded));
        }
        proof {
            assert(asked(first) =~= seq![
                ConnectCall::Configure,
                ConnectCall::ServerNameIndication(self.settings().tls_sni),
                ConnectCall::VerifyHostname(self.settings().verify_hostname),
                ConnectCall::EchGrease(self.settings().enable_ech_grease),
            ] + (if self.settings().random_aes_hw_override {
                seq![ConnectCall::<K, C>::AesHwOverride(random % 2 == 0)]
            } else {
                Seq::empty()
            }));
            assert(asked(steps@) =~= asked(first) + asked(alps_steps) + (match offered_alpn(
                self.settings(),
                requested,
            ) {
                Some(encoded) => seq![ConnectCall::AlpnProtos(encoded)],
                None => Seq::empty(),
            }));
        }
        steps
    }

    fn encoded_alpn(&self, requested: Option<AlpnProtocol>) -> (r: Option<Vec<u8>>)
        ensures
            offered_alpn(self.settings(), requested) == (match r {
                Some(encoded) => Some(encoded@),
                None => None,
            }),
    {
        match requested {
            // If ALPN is set in the request, it takes precedence over the connector configuration.
            Some(protocol) => Some(protocol.encode()),
            // Default use the connector configuration.
            None => match self.config.alpn_protocols() {
                Some(protocols) => Some(AlpnProtocol::encode_sequence(protocols)),
                None => None,
            },
        }
    }

    fn alps_steps<'a, K>(&'a self) -> (steps: Vec<ConnectStep<'a, K, C>>)
        ensures
            asked(steps@) == alps_calls::<K, C>(self.settings()),
    {
        let mut steps: Vec<ConnectStep<'a, K, C>> = Vec::new();
        if let Some(protocols) = self.config.alps_protocols() {
            let mut i: usize = 0;
            while i < protocols.len()
                invariant
                    i <= protocols@.len(),
                    steps@.len() == i,
                    forall|j: int|
                        0 <= j < i ==> (#[trigger] steps@[j])@ == (
                        ConnectCall::<K, C>::ApplicationSettings(protocols@[j]@)),
                decreases protocols@.len() - i,
            {
                steps.push(ConnectStep::ApplicationSettings(protocols[i]));
                i += 1;
            }
            // By default, the old endpoint is used.
            if protocols.len() > 0 && self.config.alps_use_new_codepoint() {
                steps.push(ConnectStep::AlpsUseNewCodepoint);
            }
        }
        assert(asked(steps@) =~= alps_calls::<K, C>(self.settings()));
        steps
    }

    /// Decides on the calls that set up a plain connection to the host of a URI.
    pub fn setup_ssl<'a, K>(&'a self, uri: &'a Uri) -> (r: ConnectionSetup<'a, K, C>)
        ensures
            r@ == plain_setup::<K, C>(*uri, self.settings().no_ticket),
    {
        self.setup_ssl_to(host_to_connect_to(uri))
    }

    /// Decides on the calls that set up a plain connection to a host, if there is one.
    pub fn setup_ssl_to<'a, K>(&'a self, host: Option<&'a str>) -> (r: ConnectionSetup<'a, K, C>)
        ensures
            r@ == setup_for::<K, C>(
                seq![ConnectCall::Configure],
                maybe_text(host),
                Seq::empty(),
                self.settings().no_ticket,
            ),
    {
        let mut steps: Vec<ConnectStep<'a, K, C>> = Vec::new();
        steps.push(ConnectStep::Configure);
        let mut host_missing = false;
        match host {
            Some(host) => {
                steps.push(ConnectStep::IntoSsl(host));
            },
            None => {
                host_missing = true;
            },
        }
        let ghost expected = setup_for::<K, C>(
            seq![ConnectCall::Configure],
            maybe_text(host),
            Seq::empty(),
            self.settings().no_ticket,
        );
        assert(asked(steps@) =~= expected.calls.pending);
        ConnectionSetup {
            queue: StepQueue::new(steps),
            no_ticket: self.config.no_ticket(),
            host_missing,
        }
    }

    /// Decides on the calls that set up the connection of a request. `random` is any
    /// random number.
    pub fn setup_ssl2<'a, K>(&'a self, req: &'a ConnectRequest<K>, random: u64) -> (r:
        ConnectionSetup<'a, K, C>)
        ensures
            r@ == request_setup(self.settings(), self.session_cache(), *req, random),
    {
        self.setup_ssl2_to(req, host_to_connect_to(&req.uri), random)
    }

    /// Decides on the calls that set up the connection of a request to a host, if
    /// there is one. `random` is any random number.
    pub fn setup_ssl2_to<'a, K>(
        &'a self,
        req: &'a ConnectRequest<K>,
        host: Option<&'a str>,
        random: u64,
    ) -> (r: ConnectionSetup<'a, K, C>)
        ensures
            r@ == request_setup_to(
                self.settings(),
                self.session_cache(),
                *req,
                maybe_text(host),
                random,
            ),
    {
        let mut steps: Vec<ConnectStep<'a, K, C>> = self.offer_steps(req.alpn_protocol, random);
        let mut host_missing = false;
        match host {
            Some(host) => {
                if let Some(cache) = &self.cache {
                    steps.push(ConnectStep::LookUpSession(&**cache, &req.identity));
                    steps.push(ConnectStep::LeaveKey(&req.identity));
                }
                steps.push(ConnectStep::IntoSsl(host));
            },
            None => {
                host_missing = true;
            },
        }
        let ghost expected = request_setup_to(
            self.settings(),
            self.session_cache(),
            *req,
            maybe_text(host),
            random,
        );
        assert(asked(steps@) =~= expected.calls.pending);
        ConnectionSetup {
            queue: StepQueue::new(steps),
            no_ticket: self.config.no_ticket(),
            host_missing,
        }
    }
}

impl<L: Clone, C> Clone for Inner<L, C> {
    fn clone(&self) -> (r: Self)
        ensures
            cloned(self.context(), r.context()),
            r.session_cache() == self.session_cache(),
            r.settings() == self.settings(),
    {
        let cache = match &self.cache {
            Some(cache) => Some(share(cache)),
            None => None,
        };
        Inner { ssl: self.ssl.clone(), cache, config: self.config.clone() }
    }
}

/// A layer which wraps services in a TLS context.
pub struct TlsConnector<L, C> {
    inner: Inner<L, C>,
}

impl<L, C> TlsConnector<L, C> {
    /// What the connector makes connections with.
    pub closed spec fn inner_spec(self) -> Inner<L, C> {
        self.inner
    }

    pub(crate) fn new(inner: Inner<L, C>) -> (r: Self)
        ensures
            r.inner_spec() == inner,
    {
        TlsConnector { inner }
    }

    /// Creates a new `TlsConnectorBuilder` with the default configuration and a
    /// session cache that `with_capacity` makes for the default number of sessions.
    pub fn builder<I, S, K, F: FnOnce(usize) -> C>(with_capacity: F) -> (r: TlsConnectorBuilder<
        C,
        I,
        S,
        K,
    >)
        requires
            call_requires(with_capacity, (DEFAULT_SESSION_CACHE_CAPACITY,)),
        ensures
            call_ensures(
                with_capacity,
                (DEFAULT_SESSION_CACHE_CAPACITY,),
                r@.session_cache,
            ),
            r@ == crate::context::default_builder_settings::<C, I, S, K>(r@.session_cache),
    {
        TlsConnectorBuilder::new(with_capacity(DEFAULT_SESSION_CACHE_CAPACITY))
    }
}

impl<L: Clone, C> Clone for TlsConnector<L, C> {
    fn clone(&self) -> (r: Self)
        ensures
            cloned(self.inner_spec().context(), r.inner_spec().context()),
            r.inner_spec().session_cache() == self.inner_spec().session_cache(),
            r.inner_spec().settings() == self.inner_spec().settings(),
    {
        TlsConnector { inner: self.inner.clone() }
    }
}

/// A connector that supports `http` and `https` schemes. `T` makes the connection
/// underneath.
pub struct HttpsConnector<T, L, C> {
    http: T,
    inner: Inner<L, C>,
}

impl<T, L, C> HttpsConnector<T, L, C> {
    /// What makes the connection underneath.
    pub closed spec fn http_spec(self) -> T {
        self.http
    }

    /// What the connector makes TLS connections with.
    pub closed spec fn inner_spec(self) -> Inner<L, C> {
        self.inner
    }

    /// Creates a new [`HttpsConnector`] with a given [`TlsConnector`].
    pub fn with_connector(http: T, connector: TlsConnector<L, C>) -> (r: HttpsConnector<T, L, C>)
        ensures
            r.http_spec() == http,
            r.inner_spec() == connector.inner_spec(),
    {
        HttpsConnector { http, inner: connector.inner }
    }

    /// Disables ALPN negotiation.
    pub fn no_alpn(&mut self) -> (r: &mut Self)
        ensures
            r.http_spec() == old(self).http_spec(),
            r.inner_spec().context() == old(self).inner_spec().context(),
            r.inner_spec().session_cache() == old(self).inner_spec().session_cache(),
            r.inner_spec().settings() == (HandshakeSettings {
                alpn_protocols: None,
                ..old(self).inner_spec().settings()
            }),
            *final(self) == *final(r),
    {
        self.inner.config.clear_alpn_protocols();
        self
    }

    /// What makes the connection underneath.
    pub fn http(&mut self) -> (r: &mut T)
        ensures
            *r == old(self).http_spec(),
            final(self).http_spec() == *final(r),
            final(self).inner_spec() == old(self).inner_spec(),
    {
        &mut self.http
    }

    /// What the connector makes TLS connections with.
    pub fn inner(&self) -> (r: &Inner<L, C>)
        ensures
            *r == self.inner_spec(),
    {
        &self.inner
    }
}

impl<T: Clone, L: Clone, C> Clone for HttpsConnector<T, L, C> {
    fn clone(&self) -> (r: Self)
        ensures
            cloned(self.http_spec(), r.http_spec()),
            cloned(self.inner_spec().context(), r.inner_spec().context()),
            r.inner_spec().session_cache() == self.inner_spec().session_cache(),
            r.inner_spec().settings() == self.inner_spec().settings(),
    {
        HttpsConnector { http: self.http.clone(), inner: self.inner.clone() }
    }
}

/// How the calls of a setup go when all of them go well.
pub open spec fn good_outcome(session_found: bool) -> CallOutcome {
    if session_found {
        CallOutcome::SessionFound
    } else {
        CallOutcome::Done
    }
}

/// The setup after at most `n` calls that all went well.
pub open spec fn driven<K, C>(setup: ConnectProgress<K, C>, session_found: bool, n: nat) -> (
    ConnectProgress<K, C>)
    decreases n,
{
    if n == 0 || setup.calls.pending.len() == 0 {
        setup
    } else {
        driven(setup.after_call(good_outcome(session_found)), session_found, (n - 1) as nat)
    }
}

/// The calls that are made on the way to `driven(setup, session_found, n)`.
pub open spec fn made<K, C>(setup: ConnectProgress<K, C>, session_found: bool, n: nat) -> Seq<
    ConnectCall<K, C>,
>
    decreases n,
{
    if n == 0 || setup.calls.pending.len() == 0 {
        Seq::empty()
    } else {
        seq![setup.calls.pending[0]] + made(
            setup.after_call(good_outcome(session_found)),
            session_found,
            (n - 1) as nat,
        )
    }
}

/// Calls together with those that they ask for.
pub open spec fn resolved<K, C>(
    calls: Seq<ConnectCall<K, C>>,
    session_found: bool,
    no_ticket: bool,
) -> Seq<ConnectCall<K, C>>
    decreases calls.len(),
{
    if calls.len() == 0 {
        Seq::empty()
    } else {
        seq![calls[0]] + follow_up(calls[0], good_outcome(session_found), no_ticket) + resolved(
            calls.drop_first(),
            session_found,
            no_ticket,
        )
    }
}

pub(crate) proof fn lemma_calls_without_lookup_are_resolved<K, C>(
    calls: Seq<ConnectCall<K, C>>,
    session_found: bool,
    no_ticket: bool,
)
    requires
        forall|i: int| 0 <= i < calls.len() ==> !(#[trigger] calls[i] is LookUpSession),
    ensures
        resolved(calls, session_found, no_ticket) == calls,
    decreases calls.len(),
{
    if calls.len() > 0 {
        let rest = calls.drop_first();
        assert forall|i: int| 0 <= i < rest.len() implies !(#[trigger] rest[i] is LookUpSession) by {
            assert(rest[i] == calls[i + 1]);
        }
        lemma_calls_without_lookup_are_resolved(rest, session_found, no_ticket);
        assert(!(calls[0] is LookUpSession));
    }
    assert(resolved(calls, session_found, no_ticket) =~= calls);
}

proof fn lemma_resolved_concat<K, C>(
    a: Seq<ConnectCall<K, C>>,
    b: Seq<ConnectCall<K, C>>,
    session_found: bool,
    no_ticket: bool,
)
    ensures
        resolved(a + b, session_found, no_ticket) == resolved(a, session_found, no_ticket)
            + resolved(b, session_found, no_ticket),
    decreases a.len(),
{
    if a.len() == 0 {
        assert(a + b =~= b);
    } else {
        lemma_resolved_concat(a.drop_first(), b, session_found, no_ticket);
        assert((a + b).drop_first() =~= a.drop_first() + b);
    }
    assert(resolved(a + b, session_found, no_ticket) =~= resolved(a, session_found, no_ticket)
        + resolved(b, session_found, no_ticket));
}

proof fn lemma_first_call_is_made<K, C>(setup: ConnectProgress<K, C>, session_found: bool)
    requires
        setup.calls.pending.len() > 0,
    ensures
        resolved(setup.calls.pending, session_found, setup.no_ticket)
            == seq![setup.calls.pending[0]] + resolved(
            setup.after_call(good_outcome(session_found)).calls.pending,
            session_found,
            setup.no_ticket,
        ),
{
    let pending = setup.calls.pending;
    let more = follow_up(pending[0], good_outcome(session_found), setup.no_ticket);
    lemma_calls_without_lookup_are_resolved(more, session_found, setup.no_ticket);
    lemma_resolved_concat(more, pending.drop_first(), session_found, setup.no_ticket);
    assert(resolved(pending, session_found, setup.no_ticket) =~= seq![pending[0]] + (more
        + resolved(pending.drop_first(), session_found, setup.no_ticket)));
}

/// When all calls of a setup go well, those are made that were decided on
/// together with those that they ask for, in that order, and the setup ends; it
/// ends ready exactly if the URI has a host.
pub proof fn law_setup_makes_all_calls_in_order<K, C>(
    setup: ConnectProgress<K, C>,
    session_found: bool,
    n: nat,
)
    requires
        !setup.calls.failed,
        n >= resolved(setup.calls.pending, session_found, setup.no_ticket).len(),
    ensures
        made(setup, session_found, n) == resolved(
            setup.calls.pending,
            session_found,
            setup.no_ticket,
        ),
        driven(setup, session_found, n).status() == (if setup.host_missing {
            SetupStatus::MissingHost
        } else {
            SetupStatus::Ready
        }),
    decreases n,
{
    if setup.calls.pending.len() > 0 {
        lemma_first_call_is_made(setup, session_found);
        law_setup_makes_all_calls_in_order(
            setup.after_call(good_outcome(session_found)),
            session_found,
            (n - 1) as nat,
        );
    }
}

/// A call that fails ends the setup: no further call is made.
pub proof fn law_failed_call_ends_the_setup<K, C>(setup: ConnectProgress<K, C>)
    ensures
        setup.after_call(CallOutcome::Failed).status() == SetupStatus::Failed,
        setup.after_call(CallOutcome::Failed).calls.pending.len() == 0,
{
}

proof fn lemma_offer_has_no_lookup<K, C>(
    settings: HandshakeSettings,
    requested: Option<AlpnProtocol>,
    random: u64,
)
    ensures
        forall|i: int|
            0 <= i < offer_calls::<K, C>(settings, requested, random).len() ==> !(
            #[trigger] offer_calls::<K, C>(settings, requested, random)[i] is LookUpSession),
{
}

/// With a session cache, a connection resumes the session that the cache holds for
/// the identity of the request, and only then may switch tickets off for itself;
/// it leaves the identity on the connection whether or not there was a session,
/// and takes the normalized host last.
pub proof fn law_cached_session_is_resumed<K, C>(
    settings: HandshakeSettings,
    cache: C,
    req: ConnectRequest<K>,
    random: u64,
    session_found: bool,
    host: Seq<char>,
)
    requires
        crate::host::connect_host(req.uri) == Some(host),
    ensures
        resolved(
            request_setup(settings, Some(cache), req, random).calls.pending,
            session_found,
            settings.no_ticket,
        ) == offer_calls(settings, req.alpn_protocol, random) + seq![
            ConnectCall::LookUpSession(cache, req.identity),
        ] + (if session_found {
            seq![ConnectCall::<K, C>::ResumeSession]
        } else {
            Seq::empty()
        }) + (if session_found && settings.no_ticket {
            seq![ConnectCall::<K, C>::NoTicket]
        } else {
            Seq::empty()
        }) + seq![
            ConnectCall::LeaveKey(req.identity),
            ConnectCall::IntoSsl(host),
        ],
{
    let offer = offer_calls::<K, C>(settings, req.alpn_protocol, random);
    let look = seq![ConnectCall::LookUpSession(cache, req.identity)];
    let last = seq![
        ConnectCall::LeaveKey(req.identity),
        ConnectCall::<K, C>::IntoSsl(host),
    ];
    let pending = request_setup(settings, Some(cache), req, random).calls.pending;
    assert(pending =~= offer + (look + last));
    lemma_offer_has_no_lookup::<K, C>(settings, req.alpn_protocol, random);
    lemma_calls_without_lookup_are_resolved(offer, session_found, settings.no_ticket);
    lemma_calls_without_lookup_are_resolved(last, session_found, settings.no_ticket);
    lemma_resolved_concat(offer, look + last, session_found, settings.no_ticket);
    assert((look + last).drop_first() =~= last);
    assert((look + last)[0] == look[0]);
}

/// Without a session cache, no session is looked for, none is resumed, and no
/// tickets are switched off.
pub proof fn law_no_cache_means_no_resumption<K, C>(
    settings: HandshakeSettings,
    req: ConnectRequest<K>,
    random: u64,
    session_found: bool,
)
    ensures
        ({
            let pending = request_setup::<K, C>(settings, None, req, random).calls.pending;
            let calls = resolved(pending, session_found, settings.no_ticket);
            &&& calls == pending
            &&& forall|i: int|
                0 <= i < calls.len() ==> !(#[trigger] calls[i] is LookUpSession) && !(
                calls[i] is ResumeSession) && !(calls[i] is NoTicket)
        }),
{
    let offer = offer_calls::<K, C>(settings, req.alpn_protocol, random);
    let pending = request_setup::<K, C>(settings, None, req, random).calls.pending;
    assert(forall|i: int|
        0 <= i < offer.len() ==> !(#[trigger] offer[i] is LookUpSession) && !(
        offer[i] is ResumeSession) && !(offer[i] is NoTicket));
    assert(forall|i: int|
        0 <= i < pending.len() ==> !(#[trigger] pending[i] is LookUpSession) && !(
        pending[i] is ResumeSession) && !(pending[i] is NoTicket));
    lemma_calls_without_lookup_are_resolved(pending, session_found, settings.no_ticket);
}

/// A connection to a URI without a host is refused once the calls that need no
/// host went well, before any session is looked for.
pub proof fn law_uri_without_host_is_refused<K, C>(
    settings: HandshakeSettings,
    cache: Option<C>,
    req: ConnectRequest<K>,
    random: u64,
    session_found: bool,
    n: nat,
)
    requires
        crate::host::connect_host(req.uri) is None,
        n >= offer_calls::<K, C>(settings, req.alpn_protocol, random).len(),
    ensures
        ({
            let setup = request_setup(settings, cache, req, random);
            &&& made(setup, session_found, n) == offer_calls::<K, C>(
                settings,
                req.alpn_protocol,
                random,
            )
            &&& driven(setup, session_found, n).status() == SetupStatus::MissingHost
        }),
{
    let setup = request_setup(settings, cache, req, random);
    lemma_offer_has_no_lookup::<K, C>(settings, req.alpn_protocol, random);
    lemma_calls_without_lookup_are_resolved(
        setup.calls.pending,
        session_found,
        settings.no_ticket,
    );
    law_setup_makes_all_calls_in_order(setup, session_found, n);
}

/// A protocol that a request insists on takes precedence over the protocols of
/// the connector, whatever they are.
pub proof fn law_requested_protocol_takes_precedence(
    settings: HandshakeSettings,
    requested: AlpnProtocol,
)
    ensures
        offered_alpn(settings, Some(requested)) == Some(crate::alpn::wire_name(requested@)),
{
}

/// A connector with ALPN disabled offers no protocol, unless a request insists on
/// one.
pub proof fn law_disabled_alpn_offers_nothing<K, C>(settings: HandshakeSettings, random: u64)
    ensures
        ({
            let calls = offer_calls::<K, C>(
                HandshakeSettings { alpn_protocols: None, ..settings },
                None,
                random,
            );
            forall|i: int| 0 <= i < calls.len() ==> !(#[trigger] calls[i] is AlpnProtos)
        }),
{
}

/// The new codepoint is asked for only together with ALPS protocols.
pub proof fn law_new_codepoint_needs_alps_protocols<K, C>(
    settings: HandshakeSettings,
    requested: Option<AlpnProtocol>,
    random: u64,
)
    requires
        settings.alps_protocols is None || settings.alps_protocols->0.len() == 0
            || !settings.alps_use_new_codepoint,
    ensures
        ({
            let calls = offer_calls::<K, C>(settings, requested, random);
            forall|i: int| 0 <= i < calls.len() ==> !(#[trigger] calls[i] is AlpsUseNewCodepoint)
        }),
{
}

} // verus!
