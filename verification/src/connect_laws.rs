//! What holds of the calls that set up one connection.

use http::Uri;
use vstd::prelude::*;

use crate::alpn::{
    law_encoded_name_is_read_back, law_encoded_names_are_read_back, names_of, read_names,
    AlpnProtocol, AlpsProtocol,
};
use crate::config::HandshakeSettings;
use crate::connect::{
    alps_calls, asked, offer_calls, plain_setup, request_setup, request_setup_to, session_calls,
    setup_for, CallOutcome, ConnectCall, ConnectProgress, ConnectRequest, ConnectStep, SetupStatus,
};
use crate::context::BuilderSettings;
use crate::host::{
    authority_of, connect_host, law_host_of_a_uri, port_part, reads_as_ipv6, user_part,
};
use crate::options::TlsOptions;

verus! {

/// The place of a call among those that set up a connection.
pub open spec fn place<K, C>(call: ConnectCall<K, C>) -> int {
    match call {
        ConnectCall::Configure => 0,
        ConnectCall::ServerNameIndication(_) => 1,
        ConnectCall::VerifyHostname(_) => 2,
        ConnectCall::EchGrease(_) => 3,
        ConnectCall::AesHwOverride(_) => 4,
        ConnectCall::ApplicationSettings(_) => 5,
        ConnectCall::AlpsUseNewCodepoint => 6,
        ConnectCall::AlpnProtos(_) => 7,
        ConnectCall::LookUpSession(..) => 8,
        ConnectCall::ResumeSession => 9,
        ConnectCall::NoTicket => 10,
        ConnectCall::LeaveKey(_) => 11,
        ConnectCall::IntoSsl(_) => 12,
    }
}

/// Calls in their order, only ALPS protocols more than once, with places from `low` on
/// and before `high`.
spec fn within<K, C>(calls: Seq<ConnectCall<K, C>>, low: int, high: int) -> bool {
    &&& forall|i: int, j: int|
        0 <= i < j < calls.len() ==> (place(#[trigger] calls[i]) < place(#[trigger] calls[j]) || (
        calls[i] is ApplicationSettings && calls[j] is ApplicationSettings))
    &&& forall|i: int| 0 <= i < calls.len() ==> low <= place(#[trigger] calls[i]) < high
}

proof fn lemma_joined<K, C>(
    a: Seq<ConnectCall<K, C>>,
    b: Seq<ConnectCall<K, C>>,
    places: (int, int, int),
    call: ConnectCall<K, C>,
)
    requires
        within(a, places.0, places.1),
        within(b, places.1, places.2),
        places.0 <= places.1 <= places.2,
    ensures
        within(a + b, places.0, places.2),
        (a + b).contains(call) <==> a.contains(call) || b.contains(call),
        (a + b).len() == a.len() + b.len(),
{
    vstd::seq_lib::lemma_seq_concat_contains_all_elements(a, b, call);
    let calls = a + b;
    assert forall|i: int| 0 <= i < calls.len() implies places.0 <= place(#[trigger] calls[i])
        < places.2 by {
        if i < a.len() {
            assert(calls[i] == a[i]);
        } else {
            assert(calls[i] == b[i - a.len()]);
        }
    }
    assert forall|i: int, j: int| 0 <= i < j < calls.len() implies (place(#[trigger] calls[i])
        < place(#[trigger] calls[j]) || (calls[i] is ApplicationSettings
        && calls[j] is ApplicationSettings)) by {
        if j < a.len() {
            assert(calls[i] == a[i] && calls[j] == a[j]);
        } else if i < a.len() {
            assert(calls[i] == a[i] && calls[j] == b[j - a.len()]);
        } else {
            assert(calls[i] == b[i - a.len()] && calls[j] == b[j - a.len()]);
        }
    }
}

proof fn lemma_one_more<K, C>(
    before: Seq<ConnectCall<K, C>>,
    more: Seq<ConnectCall<K, C>>,
    at: int,
    call: ConnectCall<K, C>,
)
    requires
        within(before, 0, at),
        0 <= at,
        more.len() <= 1,
        more.len() == 1 ==> place(more[0]) == at,
    ensures
        within(before + more, 0, at + 1),
        (before + more).contains(call) <==> before.contains(call) || (more.len() == 1 && more[0]
            == call),
        (before + more).len() == before.len() + more.len(),
{
    lemma_joined(before, more, (0, at, at + 1), call);
    if more.len() == 1 && more[0] == call {
        assert(more.contains(call));
    }
}

spec fn one(condition: bool) -> int {
    if condition {
        1
    } else {
        0
    }
}

proof fn lemma_alps<K, C>(settings: HandshakeSettings, call: ConnectCall<K, C>)
    ensures
        within(alps_calls::<K, C>(settings), 5, 7),
        alps_calls::<K, C>(settings).contains(call) <==> (match call {
            ConnectCall::ApplicationSettings(name) => settings.alps_protocols matches Some(list)
                && exists|k: int| 0 <= k < list.len() && (#[trigger] list[k])@ == name,
            ConnectCall::AlpsUseNewCodepoint => settings.alps_use_new_codepoint
                && (settings.alps_protocols matches Some(list) && list.len() > 0),
            _ => false,
        }),
        alps_calls::<K, C>(settings).len() == (match settings.alps_protocols {
            Some(list) => list.len() + (if settings.alps_use_new_codepoint && list.len() > 0 {
                1int
            } else {
                0
            }),
            None => 0,
        }),
        settings.alps_protocols matches Some(list) ==> forall|k: int|
            0 <= k < list.len() ==> #[trigger] alps_calls::<K, C>(settings)[k]
                == ConnectCall::<K, C>::ApplicationSettings(list[k]@),
{
    if let Some(list) = settings.alps_protocols {
        let named = list.map_values(
            |alps: AlpsProtocol| ConnectCall::<K, C>::ApplicationSettings(alps@),
        );
        let last = if list.len() > 0 && settings.alps_use_new_codepoint {
            seq![ConnectCall::<K, C>::AlpsUseNewCodepoint]
        } else {
            Seq::empty()
        };
        assert(alps_calls::<K, C>(settings) =~= named + last);
        assert(named.contains(call) <==> (call matches ConnectCall::ApplicationSettings(name)
            && exists|k: int| 0 <= k < list.len() && (#[trigger] list[k])@ == name)) by {
            if named.contains(call) {
                let k = named.index_of(call);
                assert(list[k]@ == call->ApplicationSettings_0);
            }
            if call is ApplicationSettings {
                let name = call->ApplicationSettings_0;
                if exists|k: int| 0 <= k < list.len() && (#[trigger] list[k])@ == name {
                    let k = choose|k: int| 0 <= k < list.len() && (#[trigger] list[k])@ == name;
                    assert(named[k] == call);
                }
            }
        }
        lemma_joined(named, last, (5, 6, 7), call);
        if last.len() == 1 {
            assert(last[0] == ConnectCall::<K, C>::AlpsUseNewCodepoint);
        }
    }
}

/// What is asked for before the host is needed, and how much of it there is.
spec fn is_offered<K, C>(
    settings: HandshakeSettings,
    requested: Option<AlpnProtocol>,
    random: u64,
    call: ConnectCall<K, C>,
) -> bool {
    match call {
        ConnectCall::Configure => true,
        ConnectCall::ServerNameIndication(on) => on == settings.tls_sni,
        ConnectCall::VerifyHostname(on) => on == settings.verify_hostname,
        ConnectCall::EchGrease(on) => on == settings.enable_ech_grease,
        ConnectCall::AesHwOverride(on) => settings.random_aes_hw_override && on == (random % 2
            == 0),
        ConnectCall::ApplicationSettings(name) => settings.alps_protocols matches Some(list)
            && exists|k: int| 0 <= k < list.len() && (#[trigger] list[k])@ == name,
        ConnectCall::AlpsUseNewCodepoint => settings.alps_use_new_codepoint
            && (settings.alps_protocols matches Some(list) && list.len() > 0),
        ConnectCall::AlpnProtos(wire) => crate::connect::offered_alpn(settings, requested) == Some(
            wire,
        ),
        _ => false,
    }
}

proof fn lemma_offer<K, C>(
    settings: HandshakeSettings,
    requested: Option<AlpnProtocol>,
    random: u64,
    call: ConnectCall<K, C>,
)
    ensures
        ({
            let calls = offer_calls::<K, C>(settings, requested, random);
            let before_alps = 4 + one(settings.random_aes_hw_override);
            &&& within(calls, 0, 8)
            &&& calls.contains(call) <==> is_offered(settings, requested, random, call)
            &&& calls.len() == before_alps + alps_calls::<K, C>(settings).len() + one(
                crate::connect::offered_alpn(settings, requested) is Some,
            )
            &&& settings.alps_protocols matches Some(list) ==> forall|k: int|
                0 <= k < list.len() ==> calls[before_alps + k] == ConnectCall::<
                    K,
                    C,
                >::ApplicationSettings((#[trigger] list[k])@)
        }),
{
    let first = seq![
        ConnectCall::<K, C>::Configure,
        ConnectCall::ServerNameIndication(settings.tls_sni),
        ConnectCall::VerifyHostname(settings.verify_hostname),
        ConnectCall::EchGrease(settings.enable_ech_grease),
    ];
    let aes = if settings.random_aes_hw_override {
        seq![ConnectCall::<K, C>::AesHwOverride(random % 2 == 0)]
    } else {
        Seq::empty()
    };
    let alps = alps_calls::<K, C>(settings);
    let alpn = match crate::connect::offered_alpn(settings, requested) {
        Some(encoded) => seq![ConnectCall::<K, C>::AlpnProtos(encoded)],
        None => Seq::empty(),
    };
    assert(offer_calls::<K, C>(settings, requested, random) == first + aes + alps + alpn);
    assert(first.contains(call) <==> (call == first[0] || call == first[1] || call == first[2]
        || call == first[3]));
    lemma_one_more(first, aes, 4, call);
    lemma_alps::<K, C>(settings, call);
    lemma_joined(first + aes, alps, (0, 5, 7), call);
    lemma_one_more(first + aes + alps, alpn, 7, call);
    if let Some(list) = settings.alps_protocols {
        let calls = first + aes + alps + alpn;
        let at = (first + aes).len() as int;
        assert forall|k: int| 0 <= k < list.len() implies calls[at + k] == ConnectCall::<
            K,
            C,
        >::ApplicationSettings((#[trigger] list[k])@) by {
            assert(calls[at + k] == alps[k]);
        }
    }
}

proof fn lemma_request<K, C>(
    settings: HandshakeSettings,
    cache: Option<C>,
    req: ConnectRequest<K>,
    host: Option<Seq<char>>,
    random: u64,
    call: ConnectCall<K, C>,
)
    ensures
        ({
            let calls = request_setup_to(settings, cache, req, host, random).calls.pending;
            let offer = offer_calls::<K, C>(settings, req.alpn_protocol, random);
            &&& within(calls, 0, 13)
            &&& offer.is_prefix_of(calls)
            &&& calls.contains(call) <==> offer.contains(call) || (match call {
                ConnectCall::LookUpSession(c, key) => host is Some && cache == Some(c) && key
                    == req.identity,
                ConnectCall::LeaveKey(key) => host is Some && cache is Some && key == req.identity,
                ConnectCall::IntoSsl(name) => host == Some(name),
                _ => false,
            })
            &&& calls.len() == offer.len() + (if host is Some {
                1 + 2 * one(cache is Some)
            } else {
                0
            })
        }),
{
    let offer = offer_calls::<K, C>(settings, req.alpn_protocol, random);
    lemma_offer(settings, req.alpn_protocol, random, call);
    if let Some(name) = host {
        let sessions = session_calls(cache, req.identity);
        let last = seq![ConnectCall::<K, C>::IntoSsl(name)];
        let calls = request_setup_to(settings, cache, req, host, random).calls.pending;
        assert(calls == offer + sessions + last);
        assert(within(sessions, 8, 12));
        if let Some(c) = cache {
            assert(sessions[0] == ConnectCall::LookUpSession(c, req.identity));
            assert(sessions[1] == ConnectCall::<K, C>::LeaveKey(req.identity));
        }
        lemma_joined(offer, sessions, (0, 8, 12), call);
        lemma_one_more(offer + sessions, last, 12, call);
    }
}

/// A connection is asked for exactly what the settings, the cache and the request say:
/// each call is made exactly if what it stands for asks for it, whatever all the rest
/// holds. The cache is asked, and the key left, for the identity of the request.
///
/// What is offered through ALPN is the subject of
/// [`law_offered_protocols_are_read_back`].
pub proof fn law_connection_makes_the_calls_it_needs<K, C>(
    settings: HandshakeSettings,
    cache: Option<C>,
    req: ConnectRequest<K>,
    host: Option<Seq<char>>,
    random: u64,
    call: ConnectCall<K, C>,
)
    requires
        !(call is AlpnProtos),
    ensures
        request_setup_to(settings, cache, req, host, random).calls.pending.contains(call) <==> (
        match call {
            ConnectCall::Configure => true,
            ConnectCall::ServerNameIndication(on) => on == settings.tls_sni,
            ConnectCall::VerifyHostname(on) => on == settings.verify_hostname,
            ConnectCall::EchGrease(on) => on == settings.enable_ech_grease,
            ConnectCall::AesHwOverride(on) => settings.random_aes_hw_override && on == (random % 2
                == 0),
            ConnectCall::ApplicationSettings(name) => settings.alps_protocols matches Some(list)
                && exists|k: int| 0 <= k < list.len() && (#[trigger] list[k])@ == name,
            ConnectCall::AlpsUseNewCodepoint => settings.alps_use_new_codepoint
                && (settings.alps_protocols matches Some(list) && list.len() > 0),
            ConnectCall::LookUpSession(c, key) => host is Some && cache == Some(c) && key
                == req.identity,
            ConnectCall::LeaveKey(key) => host is Some && cache is Some && key == req.identity,
            ConnectCall::IntoSsl(name) => host == Some(name),
            _ => false,
        }),
{
    lemma_request(settings, cache, req, host, random, call);
    lemma_offer(settings, req.alpn_protocol, random, call);
}

/// The calls of a connection come in one fixed order, and only ALPS protocols are named
/// by more than one call: by one for each, in their order.
pub proof fn law_connection_calls_come_in_their_order<K, C>(
    settings: HandshakeSettings,
    cache: Option<C>,
    req: ConnectRequest<K>,
    host: Option<Seq<char>>,
    random: u64,
)
    ensures
        ({
            let calls = request_setup_to(settings, cache, req, host, random).calls.pending;
            let before_alps = if settings.random_aes_hw_override {
                5int
            } else {
                4
            };
            let alps = match settings.alps_protocols {
                Some(list) => list.len(),
                None => 0,
            };
            &&& forall|i: int, j: int|
                0 <= i < j < calls.len() ==> (place(#[trigger] calls[i]) < place(
                    #[trigger] calls[j],
                ) || (calls[i] is ApplicationSettings && calls[j] is ApplicationSettings))
            &&& settings.alps_protocols matches Some(list) ==> forall|k: int|
                0 <= k < list.len() ==> calls[before_alps + k] == ConnectCall::<
                    K,
                    C,
                >::ApplicationSettings((#[trigger] list[k])@)
            &&& calls.len() == before_alps + alps + (if settings.alps_use_new_codepoint && alps
                > 0 {
                1int
            } else {
                0
            }) + (if req.alpn_protocol is Some || settings.alpn_protocols is Some {
                1int
            } else {
                0
            }) + (if host is Some && cache is Some {
                3int
            } else if host is Some {
                1
            } else {
                0
            })
        }),
{
    let calls = request_setup_to(settings, cache, req, host, random).calls.pending;
    let offer = offer_calls::<K, C>(settings, req.alpn_protocol, random);
    lemma_request(settings, cache, req, host, random, ConnectCall::Configure);
    lemma_offer::<K, C>(settings, req.alpn_protocol, random, ConnectCall::Configure);
    lemma_alps::<K, C>(settings, ConnectCall::Configure);
    if let Some(list) = settings.alps_protocols {
        let at = if settings.random_aes_hw_override {
            5int
        } else {
            4
        };
        assert forall|k: int| 0 <= k < list.len() implies calls[at + k] == ConnectCall::<
            K,
            C,
        >::ApplicationSettings((#[trigger] list[k])@) by {
            assert(calls[at + k] == offer[at + k]);
        }
    }
}

/// What a setup starts with, apart from its calls: nothing has failed, tickets are
/// handled as the settings say, and the host is missing exactly if there is none.
pub proof fn law_connection_starts_afresh<K, C>(
    settings: HandshakeSettings,
    cache: Option<C>,
    req: ConnectRequest<K>,
    host: Option<Seq<char>>,
    random: u64,
)
    ensures
        ({
            let setup = request_setup_to(settings, cache, req, host, random);
            &&& !setup.calls.failed
            &&& setup.no_ticket == settings.no_ticket
            &&& setup.host_missing <==> host is None
        }),
{
}

/// A connection offers through ALPN, and a peer reads there, exactly the protocol that
/// the request names, else exactly those that the settings list, in order, however many
/// there are and whatever else is set; if there are neither, it offers nothing. It makes
/// one offer at most.
pub proof fn law_offered_protocols_are_read_back<K, C>(
    settings: HandshakeSettings,
    cache: Option<C>,
    req: ConnectRequest<K>,
    host: Option<Seq<char>>,
    random: u64,
)
    requires
        req.alpn_protocol matches Some(protocol) ==> protocol@.len() <= 255,
        settings.alpn_protocols matches Some(list) ==> forall|i: int|
            0 <= i < list.len() ==> (#[trigger] list[i])@.len() <= 255,
    ensures
        ({
            let calls = request_setup_to(settings, cache, req, host, random).calls.pending;
            let names = match req.alpn_protocol {
                Some(protocol) => Some(seq![protocol@]),
                None => match settings.alpn_protocols {
                    Some(list) => Some(names_of(list)),
                    None => None,
                },
            };
            &&& forall|wire: Seq<u8>| #[trigger]
                calls.contains(ConnectCall::AlpnProtos(wire)) ==> names is Some && read_names(wire)
                    == names
            &&& names is Some ==> exists|wire: Seq<u8>| #[trigger]
                calls.contains(ConnectCall::AlpnProtos(wire))
        }),
{
    let calls = request_setup_to(settings, cache, req, host, random).calls.pending;
    let offered = crate::connect::offered_alpn(settings, req.alpn_protocol);
    assert forall|wire: Seq<u8>|
        #![trigger calls.contains(ConnectCall::AlpnProtos(wire))]
        calls.contains(ConnectCall::AlpnProtos(wire)) <==> offered == Some(wire) by {
        lemma_request(settings, cache, req, host, random, ConnectCall::AlpnProtos(wire));
        lemma_offer::<K, C>(settings, req.alpn_protocol, random, ConnectCall::AlpnProtos(wire));
    }
    match req.alpn_protocol {
        Some(protocol) => {
            law_encoded_name_is_read_back(protocol);
            assert(calls.contains(ConnectCall::AlpnProtos(offered->0)));
        },
        None => {
            if let Some(list) = settings.alpn_protocols {
                law_encoded_names_are_read_back(list);
                assert(read_names(offered->0)->0 =~= names_of(list));
                assert(calls.contains(ConnectCall::AlpnProtos(offered->0)));
            }
        },
    }
}

/// The connection of a request is made to the host of its URI, normalized, with a cache
/// as without one; everything else of it is independent of the URI.
pub proof fn law_request_goes_to_the_host_of_its_uri<K, C>(
    settings: HandshakeSettings,
    cache: Option<C>,
    req: ConnectRequest<K>,
    random: u64,
)
    ensures
        request_setup(settings, cache, req, random) == request_setup_to(
            settings,
            cache,
            req,
            connect_host(req.uri),
            random,
        ),
        connect_host(req.uri) matches Some(host) ==> request_setup(
            settings,
            cache,
            req,
            random,
        ).calls.pending.last() == ConnectCall::<K, C>::IntoSsl(host),
{
}

/// A request to a URI with an IP literal connects to the address without its brackets if
/// it is an IPv6 address, and to the literal as it stands otherwise; a request to a URI
/// with a name connects to the name. User information and port do not matter, nor does
/// it whether there is a cache. The same holds of a plain connection.
pub proof fn law_connections_end_with_the_bare_host<K, C>(
    settings: HandshakeSettings,
    cache: Option<C>,
    req: ConnectRequest<K>,
    random: u64,
    user: Option<Seq<char>>,
    text: Seq<char>,
    port: Option<Seq<char>>,
)
    requires
        !text.contains('@'),
        !port_part(port).contains('@'),
    ensures
        ({
            let literal = seq!['['] + text + seq![']'];
            let ends = [
                request_setup(settings, cache, req, random).calls.pending.last(),
                plain_setup::<K, C>(req.uri, settings.no_ticket).calls.pending.last(),
            ];
            &&& authority_of(req.uri) == Some(user_part(user) + literal + port_part(port))
                && !text.contains(']') ==> forall|i: int|
                0 <= i < 2 ==> #[trigger] ends[i] == ConnectCall::<K, C>::IntoSsl(
                    if reads_as_ipv6(text) {
                        text
                    } else {
                        literal
                    },
                )
            &&& authority_of(req.uri) == Some(user_part(user) + text + port_part(port))
                && text.len() > 0 && text[0] != '[' && !text.contains(':') ==> forall|i: int|
                0 <= i < 2 ==> #[trigger] ends[i] == ConnectCall::<K, C>::IntoSsl(text)
        }),
{
    law_host_of_a_uri(req.uri, user, text, port_part(port));
}

/// A plain connection makes a connection of the context and turns it into one to the
/// host of the URI; without a host it is refused after the first of the two.
pub proof fn law_plain_connection_makes_two_calls<K, C>(uri: Uri, no_ticket: bool)
    ensures
        ({
            let setup = plain_setup::<K, C>(uri, no_ticket);
            &&& !setup.calls.failed
            &&& setup.no_ticket == no_ticket
            &&& setup.calls.pending.len() > 0
            &&& setup.calls.pending[0] == ConnectCall::<K, C>::Configure
            &&& connect_host(uri) matches Some(host) ==> {
                &&& setup.calls.pending.len() == 2
                &&& setup.calls.pending[1] == ConnectCall::<K, C>::IntoSsl(host)
                &&& !setup.host_missing
            }
            &&& connect_host(uri) is None ==> setup.calls.pending.len() == 1 && setup.host_missing
        }),
{
}

/// A setup makes what it was given, in order, and the call that takes the host last; with
/// no host it makes only what comes before the host.
pub proof fn law_host_is_taken_last<K, C>(
    before_host: Seq<ConnectCall<K, C>>,
    host: Option<Seq<char>>,
    after_host: Seq<ConnectCall<K, C>>,
    no_ticket: bool,
)
    ensures
        ({
            let setup = setup_for(before_host, host, after_host, no_ticket);
            let calls = setup.calls.pending;
            &&& !setup.calls.failed
            &&& setup.no_ticket == no_ticket
            &&& setup.host_missing <==> host is None
            &&& before_host.is_prefix_of(calls)
            &&& host is None ==> calls.len() == before_host.len()
            &&& host matches Some(name) ==> {
                &&& calls.len() == before_host.len() + after_host.len() + 1
                &&& calls.last() == ConnectCall::<K, C>::IntoSsl(name)
                &&& forall|i: int|
                    0 <= i < after_host.len() ==> #[trigger] calls[before_host.len() + i]
                        == after_host[i]
            }
        }),
{
}

/// What the outcome of a call changes. A call that went well is off the list and the next
/// one is next. If it was to look for a session and one was found, the session is resumed
/// before anything else, and tickets are then switched off exactly if the settings say
/// so. A call that failed ends the setup.
pub proof fn law_outcome_decides_what_comes_next<K, C>(
    setup: ConnectProgress<K, C>,
    outcome: CallOutcome,
)
    requires
        setup.calls.pending.len() > 0,
    ensures
        ({
            let after = setup.after_call(outcome);
            let rest = setup.calls.pending.skip(1);
            let found = outcome == CallOutcome::SessionFound
                && setup.calls.pending[0] is LookUpSession;
            &&& after.no_ticket == setup.no_ticket
            &&& after.host_missing == setup.host_missing
            &&& outcome == CallOutcome::Failed ==> after.calls.failed && after.calls.pending.len()
                == 0
            &&& outcome != CallOutcome::Failed ==> after.calls.failed == setup.calls.failed
            &&& outcome != CallOutcome::Failed && !found ==> after.calls.pending == rest
            &&& found && !setup.no_ticket ==> after.calls.pending == seq![
                ConnectCall::<K, C>::ResumeSession,
            ] + rest
            &&& found && setup.no_ticket ==> after.calls.pending == seq![
                ConnectCall::<K, C>::ResumeSession,
                ConnectCall::<K, C>::NoTicket,
            ] + rest
        }),
{
    let after = setup.after_call(outcome);
    let rest = setup.calls.pending.skip(1);
    assert(rest =~= setup.calls.pending.drop_first());
    assert(Seq::<ConnectCall<K, C>>::empty() + rest =~= rest);
}

/// A setup is running exactly while there are calls to make; one that has ended has
/// failed exactly if a call did, and is otherwise ready exactly if there is a host.
pub proof fn law_status_tells_how_far_a_setup_has_come<K, C>(setup: ConnectProgress<K, C>)
    ensures
        setup.status() == SetupStatus::Running <==> setup.calls.pending.len() > 0,
        setup.status() == SetupStatus::Failed <==> setup.calls.pending.len() == 0
            && setup.calls.failed,
        setup.status() == SetupStatus::MissingHost <==> setup.calls.pending.len() == 0
            && !setup.calls.failed && setup.host_missing,
        setup.status() == SetupStatus::Ready <==> setup.calls.pending.len() == 0
            && !setup.calls.failed && !setup.host_missing,
{
}

/// A step that is handed out is the call that it stands for: whoever makes the call
/// makes it with the values that were decided on.
pub proof fn law_connect_steps_are_their_calls<'a, K, C>(
    step: ConnectStep<'a, K, C>,
    call: ConnectCall<K, C>,
)
    ensures
        step@ == call <==> (match (step, call) {
            (ConnectStep::Configure, ConnectCall::Configure) => true,
            (ConnectStep::ServerNameIndication(a), ConnectCall::ServerNameIndication(b)) => a == b,
            (ConnectStep::VerifyHostname(a), ConnectCall::VerifyHostname(b)) => a == b,
            (ConnectStep::EchGrease(a), ConnectCall::EchGrease(b)) => a == b,
            (ConnectStep::AesHwOverride(a), ConnectCall::AesHwOverride(b)) => a == b,
            (ConnectStep::ApplicationSettings(a), ConnectCall::ApplicationSettings(b)) => a.0@
                == b,
            (ConnectStep::AlpsUseNewCodepoint, ConnectCall::AlpsUseNewCodepoint) => true,
            (ConnectStep::AlpnProtos(a), ConnectCall::AlpnProtos(b)) => a@ == b,
            (ConnectStep::LookUpSession(a, k), ConnectCall::LookUpSession(b, l)) => *a == b && *k
                == l,
            (ConnectStep::ResumeSession, ConnectCall::ResumeSession) => true,
            (ConnectStep::NoTicket, ConnectCall::NoTicket) => true,
            (ConnectStep::LeaveKey(a), ConnectCall::LeaveKey(b)) => *a == b,
            (ConnectStep::IntoSsl(a), ConnectCall::IntoSsl(b)) => a@ == b,
            _ => false,
        }),
{
}

/// Every step of a list asks for its own call, at its own place in the list.
pub proof fn law_connect_steps_are_asked_one_by_one<'a, K, C>(steps: Seq<ConnectStep<'a, K, C>>)
    ensures
        asked(steps).len() == steps.len(),
        forall|i: int| 0 <= i < steps.len() ==> #[trigger] asked(steps)[i] == steps[i]@,
{
}

/// The connections of a connector that was built: each call is made exactly if the
/// builder, the options or the request ask for it.
pub proof fn law_built_connector_makes_the_calls_it_needs<K, C, I, S, L>(
    builder: BuilderSettings<C, I, S, L>,
    opts: TlsOptions,
    req: ConnectRequest<K>,
    random: u64,
    call: ConnectCall<K, C>,
)
    requires
        !(call is AlpnProtos),
    ensures
        request_setup(
            builder.handshake_settings(opts),
            builder.connection_cache(opts),
            req,
            random,
        ).calls.pending.contains(call) <==> (match call {
            ConnectCall::Configure => true,
            ConnectCall::ServerNameIndication(on) => on == builder.tls_sni,
            ConnectCall::VerifyHostname(on) => on == builder.verify_hostname,
            ConnectCall::EchGrease(on) => on == opts.enable_ech_grease,
            ConnectCall::AesHwOverride(on) => opts.random_aes_hw_override && on == (random % 2
                == 0),
            ConnectCall::ApplicationSettings(name) => opts.alps_protocols matches Some(list)
                && exists|k: int| 0 <= k < list@.len() && (#[trigger] list@[k])@ == name,
            ConnectCall::AlpsUseNewCodepoint => opts.alps_use_new_codepoint
                && (opts.alps_protocols matches Some(list) && list@.len() > 0),
            ConnectCall::LookUpSession(c, key) => connect_host(req.uri) is Some
                && opts.pre_shared_key && c == builder.session_cache && key == req.identity,
            ConnectCall::LeaveKey(key) => connect_host(req.uri) is Some && opts.pre_shared_key
                && key == req.identity,
            ConnectCall::IntoSsl(name) => connect_host(req.uri) == Some(name),
            _ => false,
        }),
        request_setup(
            builder.handshake_settings(opts),
            builder.connection_cache(opts),
            req,
            random,
        ).no_ticket <==> opts.psk_skip_session_ticket,
{
    law_connection_makes_the_calls_it_needs(
        builder.handshake_settings(opts),
        builder.connection_cache(opts),
        req,
        connect_host(req.uri),
        random,
        call,
    );
}

/// The connections of a connector that was built offer, and a peer reads there, the
/// protocol that the request names, else the one that the builder names, else those that
/// the options list, all of them and in order.
pub proof fn law_built_connector_offers_what_it_is_told<K, C, I, S, L>(
    builder: BuilderSettings<C, I, S, L>,
    opts: TlsOptions,
    req: ConnectRequest<K>,
    random: u64,
)
    requires
        req.alpn_protocol matches Some(protocol) ==> protocol@.len() <= 255,
        builder.alpn_protocol matches Some(protocol) ==> protocol@.len() <= 255,
        opts.alpn_protocols matches Some(list) ==> forall|i: int|
            0 <= i < list@.len() ==> (#[trigger] list@[i])@.len() <= 255,
    ensures
        ({
            let calls = request_setup(
                builder.handshake_settings(opts),
                builder.connection_cache(opts),
                req,
                random,
            ).calls.pending;
            let names = match (req.alpn_protocol, builder.alpn_protocol, opts.alpn_protocols) {
                (Some(protocol), _, _) => Some(seq![protocol@]),
                (None, Some(protocol), _) => Some(seq![protocol@]),
                (None, None, Some(list)) => Some(names_of(list@)),
                (None, None, None) => None,
            };
            &&& forall|wire: Seq<u8>| #[trigger]
                calls.contains(ConnectCall::AlpnProtos(wire)) ==> names is Some && read_names(wire)
                    == names
            &&& names is Some ==> exists|wire: Seq<u8>| #[trigger]
                calls.contains(ConnectCall::AlpnProtos(wire))
        }),
{
    let settings = builder.handshake_settings(opts);
    let cache = builder.connection_cache(opts);
    let host = connect_host(req.uri);
    law_offered_protocols_are_read_back(settings, cache, req, host, random);
    let calls = request_setup(settings, cache, req, random).calls.pending;
    assert(calls == request_setup_to(settings, cache, req, host, random).calls.pending);
    if req.alpn_protocol is None {
        match (builder.alpn_protocol, opts.alpn_protocols) {
            (Some(protocol), _) => {
                assert(names_of(settings.alpn_protocols->0) =~= seq![protocol@]);
            },
            (None, Some(list)) => {
                assert(settings.alpn_protocols == Some(list@));
            },
            (None, None) => {
                assert(settings.alpn_protocols is None);
            },
        }
    }
}

} // verus!
