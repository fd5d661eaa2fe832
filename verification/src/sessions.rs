//! Which sessions the connections of a connector resume: what a session cache holds
//! after connections were made, and what a later connection finds there.
//!
//! The cache and the callback for new sessions are the caller's. They are taken to do
//! what [`kept`], [`resumed`] and [`CacheEvent`] say: a new session is kept under the
//! key that was left on its connection, nothing else is put into the cache, and what
//! is looked up is what was kept last under that key and not dropped since. What is
//! proved here is which keys connections look up and leave, and what follows for such
//! a cache.

use vstd::prelude::*;

use crate::alpn::AlpnProtocol;
use crate::config::HandshakeSettings;
use crate::connect::{
    law_cached_session_is_resumed, law_no_cache_means_no_resumption, offer_calls, request_setup,
    resolved, ConnectCall, ConnectProgress, ConnectRequest,
};
use crate::host::connect_host;

verus! {

/// The key that calls leave on a connection, for its new sessions to be kept under.
pub open spec fn left_key<K, C>(calls: Seq<ConnectCall<K, C>>) -> Option<K>
    decreases calls.len(),
{
    if calls.len() == 0 {
        None
    } else {
        match calls.last() {
            ConnectCall::LeaveKey(key) => Some(key),
            _ => left_key(calls.drop_last()),
        }
    }
}

/// The key that calls look for a session under.
pub open spec fn looked_up_key<K, C>(calls: Seq<ConnectCall<K, C>>) -> Option<K>
    decreases calls.len(),
{
    if calls.len() == 0 {
        None
    } else {
        match calls.last() {
            ConnectCall::LookUpSession(_, key) => Some(key),
            _ => looked_up_key(calls.drop_last()),
        }
    }
}

/// The calls that are made on the connection of a request when all go well.
pub open spec fn connection_calls<K, C>(
    settings: HandshakeSettings,
    cache: Option<C>,
    req: ConnectRequest<K>,
    random: u64,
    session_found: bool,
) -> Seq<ConnectCall<K, C>> {
    resolved(
        request_setup(settings, cache, req, random).calls.pending,
        session_found,
        settings.no_ticket,
    )
}

/// The sessions that a cache holds once a connection on which `calls` were made has
/// got one: it is kept under the key that was left on the connection, if one was.
pub open spec fn kept<K, C, S>(
    sessions: Map<K, S>,
    calls: Seq<ConnectCall<K, C>>,
    session: S,
) -> Map<K, S> {
    match left_key(calls) {
        Some(key) => sessions.insert(key, session),
        None => sessions,
    }
}

/// The session that a connection resumes when the cache holds `sessions`.
pub open spec fn resumed<K, C, S>(setup: ConnectProgress<K, C>, sessions: Map<K, S>) -> Option<S> {
    match looked_up_key(setup.calls.pending) {
        Some(key) => if sessions.contains_key(key) {
            Some(sessions[key])
        } else {
            None
        },
        None => None,
    }
}

/// What happens to a session cache; nothing else does.
pub enum CacheEvent<K, C, S> {
    /// The connection of a request has got a session.
    NewSession {
        settings: HandshakeSettings,
        cache: Option<C>,
        req: ConnectRequest<K>,
        random: u64,
        session_found: bool,
        session: S,
    },
    /// The session under a key is dropped, if there is one.
    Dropped(K),
}

impl<K, C, S> CacheEvent<K, C, S> {
    /// The sessions that the cache holds afterwards.
    pub open spec fn applied_to(self, sessions: Map<K, S>) -> Map<K, S> {
        match self {
            CacheEvent::NewSession { settings, cache, req, random, session_found, session } => kept(
                sessions,
                connection_calls(settings, cache, req, random, session_found),
                session,
            ),
            CacheEvent::Dropped(key) => sessions.remove(key),
        }
    }

    /// Whether the event is that a connection of a request of this identity has got
    /// this session.
    pub open spec fn obtains(self, identity: K, session: S) -> bool {
        self matches CacheEvent::NewSession { req, session: obtained, .. } && req.identity
            == identity && obtained == session
    }
}

/// The sessions that a cache holds after a history that started with an empty one.
pub open spec fn sessions_after<K, C, S>(history: Seq<CacheEvent<K, C, S>>) -> Map<K, S>
    decreases history.len(),
{
    if history.len() == 0 {
        Map::empty()
    } else {
        history.last().applied_to(sessions_after(history.drop_last()))
    }
}

proof fn lemma_calls_that_leave_no_key<K, C>(calls: Seq<ConnectCall<K, C>>)
    requires
        forall|i: int| 0 <= i < calls.len() ==> !(#[trigger] calls[i] is LeaveKey),
    ensures
        left_key(calls) is None,
    decreases calls.len(),
{
    if calls.len() > 0 {
        assert(!(calls[calls.len() - 1] is LeaveKey));
        lemma_calls_that_leave_no_key(calls.drop_last());
    }
}

proof fn lemma_calls_that_look_nothing_up<K, C>(calls: Seq<ConnectCall<K, C>>)
    requires
        forall|i: int| 0 <= i < calls.len() ==> !(#[trigger] calls[i] is LookUpSession),
    ensures
        looked_up_key(calls) is None,
    decreases calls.len(),
{
    if calls.len() > 0 {
        assert(!(calls[calls.len() - 1] is LookUpSession));
        lemma_calls_that_look_nothing_up(calls.drop_last());
    }
}

proof fn lemma_offer_concerns_no_session<K, C>(
    settings: HandshakeSettings,
    requested: Option<AlpnProtocol>,
    random: u64,
)
    ensures
        ({
            let calls = offer_calls::<K, C>(settings, requested, random);
            forall|i: int|
                0 <= i < calls.len() ==> !(#[trigger] calls[i] is LookUpSession) && !(
                calls[i] is LeaveKey) && !(calls[i] is ResumeSession)
        }),
{
}

/// The connection of a request looks for a session under the identity of the request
/// and leaves that identity for its own sessions to be kept under; without a cache or
/// a host it does neither.
pub proof fn law_sessions_go_by_the_identity<K, C>(
    settings: HandshakeSettings,
    cache: Option<C>,
    req: ConnectRequest<K>,
    random: u64,
    session_found: bool,
)
    ensures
        ({
            let key = if cache is Some && connect_host(req.uri) is Some {
                Some(req.identity)
            } else {
                None
            };
            &&& looked_up_key(request_setup(settings, cache, req, random).calls.pending) == key
            &&& left_key(connection_calls(settings, cache, req, random, session_found)) == key
        }),
{
    let offer = offer_calls::<K, C>(settings, req.alpn_protocol, random);
    let pending = request_setup(settings, cache, req, random).calls.pending;
    let calls = connection_calls(settings, cache, req, random, session_found);
    lemma_offer_concerns_no_session::<K, C>(settings, req.alpn_protocol, random);
    match (cache, connect_host(req.uri)) {
        (Some(cache), Some(host)) => {
            reveal_with_fuel(left_key, 3);
            reveal_with_fuel(looked_up_key, 4);
            law_cached_session_is_resumed(settings, cache, req, random, session_found, host);
            assert(calls.last() == ConnectCall::<K, C>::IntoSsl(host));
            assert(calls.drop_last().last() == ConnectCall::<K, C>::LeaveKey(req.identity));
            let look = ConnectCall::<K, C>::LookUpSession(cache, req.identity);
            assert(pending.drop_last().drop_last() =~= offer.push(look));
            assert(offer.push(look).last() == look);
            assert(pending.last() == ConnectCall::<K, C>::IntoSsl(host));
            assert(pending.drop_last().last() == ConnectCall::<K, C>::LeaveKey(req.identity));
        },
        (None, Some(host)) => {
            law_no_cache_means_no_resumption::<K, C>(settings, req, random, session_found);
            assert(pending =~= offer.push(ConnectCall::IntoSsl(host)));
            lemma_calls_that_leave_no_key(pending);
            lemma_calls_that_look_nothing_up(pending);
        },
        (_, None) => {
            assert(pending == offer);
            crate::connect::lemma_calls_without_lookup_are_resolved(
                pending,
                session_found,
                settings.no_ticket,
            );
            lemma_calls_that_leave_no_key(pending);
            lemma_calls_that_look_nothing_up(pending);
        },
    }
}

/// A connection asks for a session to be resumed exactly if the cache holds one for it.
pub proof fn law_kept_session_is_asked_for<K, C, S>(
    settings: HandshakeSettings,
    cache: Option<C>,
    req: ConnectRequest<K>,
    random: u64,
    sessions: Map<K, S>,
)
    ensures
        ({
            let found = resumed(request_setup(settings, cache, req, random), sessions) is Some;
            connection_calls(settings, cache, req, random, found).contains(
                ConnectCall::ResumeSession,
            ) <==> found
        }),
{
    let setup = request_setup(settings, cache, req, random);
    let found = resumed(setup, sessions) is Some;
    let offer = offer_calls::<K, C>(settings, req.alpn_protocol, random);
    let calls = connection_calls(settings, cache, req, random, found);
    lemma_offer_concerns_no_session::<K, C>(settings, req.alpn_protocol, random);
    law_sessions_go_by_the_identity(settings, cache, req, random, found);
    match (cache, connect_host(req.uri)) {
        (Some(cache), Some(host)) => {
            law_cached_session_is_resumed(settings, cache, req, random, found, host);
            if found {
                assert(calls[offer.len() as int + 1] == ConnectCall::<K, C>::ResumeSession);
            }
        },
        (None, Some(_)) => {
            law_no_cache_means_no_resumption::<K, C>(settings, req, random, found);
        },
        (_, None) => {
            assert(setup.calls.pending == offer);
            crate::connect::lemma_calls_without_lookup_are_resolved(
                offer,
                found,
                settings.no_ticket,
            );
        },
    }
}

/// A session that the connection of one request has got changes nothing for requests
/// of another identity: where the cache held nothing for such a request, it still
/// finds nothing.
pub proof fn law_session_is_not_offered_to_another_identity<K, C, S>(
    settings: HandshakeSettings,
    cache: Option<C>,
    first: ConnectRequest<K>,
    second: ConnectRequest<K>,
    randoms: (u64, u64),
    session_found: bool,
    sessions: Map<K, S>,
    session: S,
)
    requires
        first.identity != second.identity,
    ensures
        ({
            let calls = connection_calls(settings, cache, first, randoms.0, session_found);
            let setup = request_setup(settings, cache, second, randoms.1);
            &&& resumed(setup, kept(sessions, calls, session)) == resumed(setup, sessions)
            &&& !sessions.contains_key(second.identity) ==> resumed(
                setup,
                kept(sessions, calls, session),
            ) is None
        }),
{
    law_sessions_go_by_the_identity(settings, cache, first, randoms.0, session_found);
    law_sessions_go_by_the_identity(settings, cache, second, randoms.1, session_found);
}

/// A session that the connection of one request has got is resumed by the next request
/// of the same identity.
pub proof fn law_session_is_offered_to_the_same_identity<K, C, S>(
    settings: HandshakeSettings,
    cache: C,
    first: ConnectRequest<K>,
    second: ConnectRequest<K>,
    randoms: (u64, u64),
    session_found: bool,
    sessions: Map<K, S>,
    session: S,
)
    requires
        first.identity == second.identity,
        connect_host(first.uri) is Some,
        connect_host(second.uri) is Some,
    ensures
        ({
            let calls = connection_calls(settings, Some(cache), first, randoms.0, session_found);
            resumed(
                request_setup(settings, Some(cache), second, randoms.1),
                kept(sessions, calls, session),
            ) == Some(session)
        }),
{
    law_sessions_go_by_the_identity(settings, Some(cache), first, randoms.0, session_found);
    law_sessions_go_by_the_identity(settings, Some(cache), second, randoms.1, session_found);
}

proof fn lemma_kept_sessions_were_obtained<K, C, S>(history: Seq<CacheEvent<K, C, S>>, identity: K)
    requires
        sessions_after(history).contains_key(identity),
    ensures
        exists|i: int|
            0 <= i < history.len() && #[trigger] history[i].obtains(
                identity,
                sessions_after(history)[identity],
            ),
    decreases history.len(),
{
    let before = history.drop_last();
    let session = sessions_after(history)[identity];
    if let CacheEvent::NewSession { settings, cache, req, random, session_found, .. } =
        history.last() {
        law_sessions_go_by_the_identity(settings, cache, req, random, session_found);
    }
    if !history[history.len() - 1].obtains(identity, session) {
        lemma_kept_sessions_were_obtained(before, identity);
        let i = choose|i: int|
            0 <= i < before.len() && #[trigger] before[i].obtains(identity, session);
        assert(history[i].obtains(identity, session));
    }
}

/// In a cache that is filled as [`CacheEvent`] says, whatever connections were made
/// before, with whatever settings, and whatever was dropped since: a session is only
/// ever offered to requests of the identity of the request that it was obtained with.
pub proof fn law_sessions_are_offered_to_their_own_identity<K, C, S>(
    history: Seq<CacheEvent<K, C, S>>,
    settings: HandshakeSettings,
    cache: Option<C>,
    req: ConnectRequest<K>,
    random: u64,
)
    ensures
        resumed(request_setup(settings, cache, req, random), sessions_after(history)) matches Some(
            session,
        ) ==> exists|i: int|
            0 <= i < history.len() && #[trigger] history[i].obtains(req.identity, session),
{
    law_sessions_go_by_the_identity(settings, cache, req, random, false);
    let offered = resumed(request_setup(settings, cache, req, random), sessions_after(history));
    if let Some(session) = offered {
        assert(session == sessions_after(history)[req.identity]);
        lemma_kept_sessions_were_obtained(history, req.identity);
    }
}

} // verus!
