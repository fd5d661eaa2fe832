//! What holds of the calls that set up a TLS context.

use std::sync::Arc;
use vstd::prelude::*;

use crate::connect::DEFAULT_SESSION_CACHE_CAPACITY;
use crate::context::{
    asked, default_builder_settings, first_of, for_some, given, maybe_shared, BuilderSettings,
    ContextCall, ContextProgress, ContextStep, SwitchOff,
};
use crate::options::{ExtensionType, TlsOptions};

verus! {

/// The place of a call among those that set up a context.
pub open spec fn place<C, I, S, K>(call: ContextCall<C, I, S, K>) -> int {
    match call {
        ContextCall::Create => 0,
        ContextCall::CertStore(_) => 1,
        ContextCall::CertVerification(_) => 2,
        ContextCall::CertificateCompression(_) => 3,
        ContextCall::Identity(_) => 4,
        ContextCall::MinProtoVersion(_) => 5,
        ContextCall::MaxProtoVersion(_) => 6,
        ContextCall::OcspStapling => 7,
        ContextCall::SignedCertTimestamps => 8,
        ContextCall::SwitchOff(SwitchOff::Ticket) => 9,
        ContextCall::SwitchOff(SwitchOff::PskDheKe) => 10,
        ContextCall::SwitchOff(SwitchOff::Renegotiation) => 11,
        ContextCall::GreaseEnabled(_) => 12,
        ContextCall::PermuteExtensions(_) => 13,
        ContextCall::CurvesList(_) => 14,
        ContextCall::SigalgsList(_) => 15,
        ContextCall::PreserveTls13CipherList(_) => 16,
        ContextCall::CipherList(_) => 17,
        ContextCall::DelegatedCredentials(_) => 18,
        ContextCall::RecordSizeLimit(_) => 19,
        ContextCall::KeySharesLimit(_) => 20,
        ContextCall::AesHwOverride(_) => 21,
        ContextCall::ExtensionPermutation(_) => 22,
        ContextCall::Keylog(_) => 23,
        ContextCall::ClientSessionCacheMode => 24,
        ContextCall::NewSessionCallback(_) => 25,
        ContextCall::MessageCallback => 26,
        ContextCall::VerifyCallback => 27,
    }
}

/// Calls in their order, with places from `low` on and before `high`.
spec fn within<C, I, S, K>(calls: Seq<ContextCall<C, I, S, K>>, low: int, high: int) -> bool {
    &&& forall|i: int, j: int|
        0 <= i < j < calls.len() ==> place(#[trigger] calls[i]) < place(#[trigger] calls[j])
    &&& forall|i: int| 0 <= i < calls.len() ==> low <= place(#[trigger] calls[i]) < high
}

proof fn lemma_joined<C, I, S, K>(
    a: Seq<ContextCall<C, I, S, K>>,
    b: Seq<ContextCall<C, I, S, K>>,
    places: (int, int, int),
    call: ContextCall<C, I, S, K>,
)
    requires
        within(a, places.0, places.1),
        within(b, places.1, places.2),
        places.0 <= places.1 <= places.2,
    ensures
        within(a + b, places.0, places.2),
        (a + b).contains(call) <==> a.contains(call) || b.contains(call),
{
    vstd::seq_lib::lemma_seq_concat_contains_all_elements(a, b, call);
    let calls = a + b;
    assert forall|i: int| 0 <= i < calls.len() implies places.0 <= place(#[trigger] calls[i])
        < places.2 by {
        if i < a.len() {
            assert(calls[i] == a[i]);
        } else {
            assert(calls[i] == b[i - a.len()]);
        }
    }
    assert forall|i: int, j: int| 0 <= i < j < calls.len() implies place(#[trigger] calls[i])
        < place(#[trigger] calls[j]) by {
        if j < a.len() {
            assert(calls[i] == a[i] && calls[j] == a[j]);
        } else if i < a.len() {
            assert(calls[i] == a[i] && calls[j] == b[j - a.len()]);
        } else {
            assert(calls[i] == b[i - a.len()] && calls[j] == b[j - a.len()]);
        }
    }
}

proof fn lemma_one_more<C, I, S, K>(
    before: Seq<ContextCall<C, I, S, K>>,
    more: Seq<ContextCall<C, I, S, K>>,
    low: int,
    at: int,
    call: ContextCall<C, I, S, K>,
)
    requires
        within(before, low, at),
        low <= at,
        more.len() <= 1,
        more.len() == 1 ==> place(more[0]) == at,
    ensures
        within(before + more, low, at + 1),
        (before + more).contains(call) <==> before.contains(call) || (more.len() == 1 && more[0]
            == call),
{
    lemma_joined(before, more, (low, at, at + 1), call);
    if more.len() == 1 && more[0] == call {
        assert(more.contains(call));
    }
}

proof fn lemma_trust<C, I, S, K>(
    builder: BuilderSettings<C, I, S, K>,
    opts: TlsOptions,
    call: ContextCall<C, I, S, K>,
)
    ensures
        within(builder.trust_calls(opts), 0, 5),
        builder.trust_calls(opts).contains(call) <==> (match call {
            ContextCall::Create => true,
            ContextCall::CertStore(store) => store == builder.cert_store,
            ContextCall::CertVerification(on) => on == builder.cert_verification,
            ContextCall::CertificateCompression(algorithms) => algorithms == (
            match opts.certificate_compression_algorithms {
                Some(chosen) => Some(chosen@),
                None => None,
            }),
            ContextCall::Identity(identity) => builder.identity == Some(identity),
            _ => false,
        }),
{
    let always = builder.trust_calls(opts).take(4);
    let identity = for_some(
        builder.identity,
        |identity: I| ContextCall::<C, I, S, K>::Identity(identity),
    );
    assert(builder.trust_calls(opts) =~= always + identity);
    assert(always.contains(call) <==> (call == always[0] || call == always[1] || call == always[2]
        || call == always[3]));
    lemma_one_more(always, identity, 0, 4, call);
}

proof fn lemma_features<C, I, S, K>(
    builder: BuilderSettings<C, I, S, K>,
    opts: TlsOptions,
    call: ContextCall<C, I, S, K>,
)
    ensures
        within(builder.feature_calls(opts), 5, 14),
        builder.feature_calls(opts).contains(call) <==> (match call {
            ContextCall::MinProtoVersion(version) => version == (if opts.min_tls_version is Some {
                opts.min_tls_version
            } else {
                builder.min_version
            }),
            ContextCall::MaxProtoVersion(version) => version == (if opts.max_tls_version is Some {
                opts.max_tls_version
            } else {
                builder.max_version
            }),
            ContextCall::OcspStapling => opts.enable_ocsp_stapling,
            ContextCall::SignedCertTimestamps => opts.enable_signed_cert_timestamps,
            ContextCall::SwitchOff(SwitchOff::Ticket) => !opts.session_ticket,
            ContextCall::SwitchOff(SwitchOff::PskDheKe) => !opts.psk_dhe_ke,
            ContextCall::SwitchOff(SwitchOff::Renegotiation) => !opts.renegotiation,
            ContextCall::GreaseEnabled(on) => opts.grease_enabled == Some(on),
            ContextCall::PermuteExtensions(on) => opts.permute_extensions == Some(on),
            _ => false,
        }),
{
    let s0 = seq![
        ContextCall::MinProtoVersion(first_of(opts.min_tls_version, builder.min_version)),
        ContextCall::<C, I, S, K>::MaxProtoVersion(
            first_of(opts.max_tls_version, builder.max_version),
        ),
    ];
    let s1 = s0 + given(opts.enable_ocsp_stapling, ContextCall::OcspStapling);
    let s2 = s1 + given(opts.enable_signed_cert_timestamps, ContextCall::SignedCertTimestamps);
    let s3 = s2 + given(!opts.session_ticket, ContextCall::SwitchOff(SwitchOff::Ticket));
    let s4 = s3 + given(!opts.psk_dhe_ke, ContextCall::SwitchOff(SwitchOff::PskDheKe));
    let s5 = s4 + given(!opts.renegotiation, ContextCall::SwitchOff(SwitchOff::Renegotiation));
    let grease = for_some(
        opts.grease_enabled,
        |on: bool| ContextCall::<C, I, S, K>::GreaseEnabled(on),
    );
    let permute = for_some(
        opts.permute_extensions,
        |on: bool| ContextCall::<C, I, S, K>::PermuteExtensions(on),
    );
    assert(s0.contains(call) <==> call == s0[0] || call == s0[1]);
    lemma_one_more(s0, given(opts.enable_ocsp_stapling, ContextCall::OcspStapling), 5, 7, call);
    lemma_one_more(
        s1,
        given(opts.enable_signed_cert_timestamps, ContextCall::SignedCertTimestamps),
        5,
        8,
        call,
    );
    lemma_one_more(
        s2,
        given(!opts.session_ticket, ContextCall::SwitchOff(SwitchOff::Ticket)),
        5,
        9,
        call,
    );
    lemma_one_more(
        s3,
        given(!opts.psk_dhe_ke, ContextCall::SwitchOff(SwitchOff::PskDheKe)),
        5,
        10,
        call,
    );
    lemma_one_more(
        s4,
        given(!opts.renegotiation, ContextCall::SwitchOff(SwitchOff::Renegotiation)),
        5,
        11,
        call,
    );
    lemma_one_more(s5, grease, 5, 12, call);
    lemma_one_more(s5 + grease, permute, 5, 13, call);
    assert(builder.feature_calls(opts) == s5 + grease + permute);
}

proof fn lemma_offer<C, I, S, K>(
    builder: BuilderSettings<C, I, S, K>,
    opts: TlsOptions,
    call: ContextCall<C, I, S, K>,
)
    ensures
        within(builder.offer_calls(opts), 14, 23),
        builder.offer_calls(opts).contains(call) <==> (match call {
            ContextCall::CurvesList(list) => opts.curves_list matches Some(given) && given@ == list,
            ContextCall::SigalgsList(list) => opts.sigalgs_list matches Some(given) && given@
                == list,
            ContextCall::PreserveTls13CipherList(on) => opts.preserve_tls13_cipher_list == Some(on),
            ContextCall::CipherList(list) => opts.cipher_list matches Some(given) && given@ == list,
            ContextCall::DelegatedCredentials(list) => opts.delegated_credentials matches Some(
                given,
            ) && given@ == list,
            ContextCall::RecordSizeLimit(limit) => opts.record_size_limit == Some(limit),
            ContextCall::KeySharesLimit(limit) => opts.key_shares_limit == Some(limit),
            ContextCall::AesHwOverride(on) => opts.aes_hw_override == Some(on),
            ContextCall::ExtensionPermutation(order) => opts.extension_permutation matches Some(
                given,
            ) && given@ == order,
            _ => false,
        }),
{
    let none = Seq::<ContextCall<C, I, S, K>>::empty();
    let curves = for_some(
        crate::context::maybe_text(opts.curves_list),
        |list: Seq<char>| ContextCall::<C, I, S, K>::CurvesList(list),
    );
    let sigalgs = for_some(
        crate::context::maybe_text(opts.sigalgs_list),
        |list: Seq<char>| ContextCall::<C, I, S, K>::SigalgsList(list),
    );
    let preserve = for_some(
        opts.preserve_tls13_cipher_list,
        |on: bool| ContextCall::<C, I, S, K>::PreserveTls13CipherList(on),
    );
    let ciphers = for_some(
        crate::context::maybe_text(opts.cipher_list),
        |list: Seq<char>| ContextCall::<C, I, S, K>::CipherList(list),
    );
    let delegated = for_some(
        crate::context::maybe_text(opts.delegated_credentials),
        |list: Seq<char>| ContextCall::<C, I, S, K>::DelegatedCredentials(list),
    );
    let record = for_some(
        opts.record_size_limit,
        |limit: u16| ContextCall::<C, I, S, K>::RecordSizeLimit(limit),
    );
    let shares = for_some(
        opts.key_shares_limit,
        |limit: u8| ContextCall::<C, I, S, K>::KeySharesLimit(limit),
    );
    let aes = for_some(
        opts.aes_hw_override,
        |on: bool| ContextCall::<C, I, S, K>::AesHwOverride(on),
    );
    let order = for_some(
        crate::config::listed(opts.extension_permutation),
        |order: Seq<ExtensionType>| ContextCall::<C, I, S, K>::ExtensionPermutation(order),
    );
    let s1 = none + curves;
    let s2 = s1 + sigalgs;
    let s3 = s2 + preserve;
    let s4 = s3 + ciphers;
    let s5 = s4 + delegated;
    let s6 = s5 + record;
    let s7 = s6 + shares;
    let s8 = s7 + aes;
    lemma_one_more(none, curves, 14, 14, call);
    lemma_one_more(s1, sigalgs, 14, 15, call);
    lemma_one_more(s2, preserve, 14, 16, call);
    lemma_one_more(s3, ciphers, 14, 17, call);
    lemma_one_more(s4, delegated, 14, 18, call);
    lemma_one_more(s5, record, 14, 19, call);
    lemma_one_more(s6, shares, 14, 20, call);
    lemma_one_more(s7, aes, 14, 21, call);
    lemma_one_more(s8, order, 14, 22, call);
    assert(s1 =~= curves);
    assert(builder.offer_calls(opts) == s8 + order);
}

proof fn lemma_watch<C, I, S, K>(
    builder: BuilderSettings<C, I, S, K>,
    opts: TlsOptions,
    call: ContextCall<C, I, S, K>,
)
    ensures
        within(builder.watch_calls(opts), 23, 28),
        builder.watch_calls(opts).contains(call) <==> (match call {
            ContextCall::Keylog(policy) => builder.keylog == Some(policy),
            ContextCall::ClientSessionCacheMode => opts.pre_shared_key,
            ContextCall::NewSessionCallback(cache) => opts.pre_shared_key && cache
                == builder.session_cache,
            ContextCall::MessageCallback => true,
            ContextCall::VerifyCallback => true,
            _ => false,
        }),
{
    let none = Seq::<ContextCall<C, I, S, K>>::empty();
    let keylog = for_some(
        builder.keylog,
        |policy: K| ContextCall::<C, I, S, K>::Keylog(policy),
    );
    let mode = given(opts.pre_shared_key, ContextCall::<C, I, S, K>::ClientSessionCacheMode);
    let keep = given(
        opts.pre_shared_key,
        ContextCall::<C, I, S, K>::NewSessionCallback(builder.session_cache),
    );
    let message = seq![ContextCall::<C, I, S, K>::MessageCallback];
    let verify = seq![ContextCall::<C, I, S, K>::VerifyCallback];
    let s1 = none + keylog;
    lemma_one_more(none, keylog, 23, 23, call);
    lemma_one_more(s1, mode, 23, 24, call);
    lemma_one_more(s1 + mode, keep, 23, 25, call);
    lemma_one_more(s1 + mode + keep, message, 23, 26, call);
    lemma_one_more(s1 + mode + keep + message, verify, 23, 27, call);
    assert(s1 =~= keylog);
    assert(builder.watch_calls(opts) =~= s1 + mode + keep + message + verify);
}

proof fn lemma_context<C, I, S, K>(
    builder: BuilderSettings<C, I, S, K>,
    opts: TlsOptions,
    call: ContextCall<C, I, S, K>,
)
    ensures
        within(builder.context_calls(opts), 0, 28),
        builder.context_calls(opts).contains(call) <==> builder.trust_calls(opts).contains(call)
            || builder.feature_calls(opts).contains(call) || builder.offer_calls(opts).contains(
            call,
        ) || builder.watch_calls(opts).contains(call),
{
    let trust = builder.trust_calls(opts);
    let features = builder.feature_calls(opts);
    let offer = builder.offer_calls(opts);
    let watch = builder.watch_calls(opts);
    lemma_trust(builder, opts, call);
    lemma_features(builder, opts, call);
    lemma_offer(builder, opts, call);
    lemma_watch(builder, opts, call);
    lemma_joined(trust, features, (0, 5, 14), call);
    lemma_joined(trust + features, offer, (0, 14, 23), call);
    lemma_joined(trust + features + offer, watch, (0, 23, 28), call);
    assert(builder.context_calls(opts) =~= trust + features + offer + watch);
}

/// A context is told of every setting exactly as the builder and the options have it:
/// each call is made exactly if the setting that it stands for asks for it, with the
/// value of that setting, whatever all the others hold. What the options leave out is
/// not touched; a version that they leave out is the builder's.
pub proof fn law_every_setting_makes_its_own_call<C, I, S, K>(
    builder: BuilderSettings<C, I, S, K>,
    opts: TlsOptions,
    call: ContextCall<C, I, S, K>,
)
    ensures
        builder.context_calls(opts).contains(call) <==> (match call {
            ContextCall::Create => true,
            ContextCall::CertStore(store) => store == builder.cert_store,
            ContextCall::CertVerification(on) => on == builder.cert_verification,
            ContextCall::CertificateCompression(algorithms) => algorithms == (
            match opts.certificate_compression_algorithms {
                Some(chosen) => Some(chosen@),
                None => None,
            }),
            ContextCall::Identity(identity) => builder.identity == Some(identity),
            ContextCall::MinProtoVersion(version) => version == (if opts.min_tls_version is Some {
                opts.min_tls_version
            } else {
                builder.min_version
            }),
            ContextCall::MaxProtoVersion(version) => version == (if opts.max_tls_version is Some {
                opts.max_tls_version
            } else {
                builder.max_version
            }),
            ContextCall::OcspStapling => opts.enable_ocsp_stapling,
            ContextCall::SignedCertTimestamps => opts.enable_signed_cert_timestamps,
            ContextCall::SwitchOff(SwitchOff::Ticket) => !opts.session_ticket,
            ContextCall::SwitchOff(SwitchOff::PskDheKe) => !opts.psk_dhe_ke,
            ContextCall::SwitchOff(SwitchOff::Renegotiation) => !opts.renegotiation,
            ContextCall::GreaseEnabled(on) => opts.grease_enabled == Some(on),
            ContextCall::PermuteExtensions(on) => opts.permute_extensions == Some(on),
            ContextCall::CurvesList(list) => opts.curves_list matches Some(given) && given@ == list,
            ContextCall::SigalgsList(list) => opts.sigalgs_list matches Some(given) && given@
                == list,
            ContextCall::PreserveTls13CipherList(on) => opts.preserve_tls13_cipher_list == Some(on),
            ContextCall::CipherList(list) => opts.cipher_list matches Some(given) && given@ == list,
            ContextCall::DelegatedCredentials(list) => opts.delegated_credentials matches Some(
                given,
            ) && given@ == list,
            ContextCall::RecordSizeLimit(limit) => opts.record_size_limit == Some(limit),
            ContextCall::KeySharesLimit(limit) => opts.key_shares_limit == Some(limit),
            ContextCall::AesHwOverride(on) => opts.aes_hw_override == Some(on),
            ContextCall::ExtensionPermutation(order) => opts.extension_permutation matches Some(
                given,
            ) && given@ == order,
            ContextCall::Keylog(policy) => builder.keylog == Some(policy),
            ContextCall::ClientSessionCacheMode => opts.pre_shared_key,
            ContextCall::NewSessionCallback(cache) => opts.pre_shared_key && cache
                == builder.session_cache,
            ContextCall::MessageCallback => true,
            ContextCall::VerifyCallback => true,
        }),
{
    lemma_trust(builder, opts, call);
    lemma_features(builder, opts, call);
    lemma_offer(builder, opts, call);
    lemma_watch(builder, opts, call);
    lemma_context(builder, opts, call);
}

/// The calls on the way to a context come in one fixed order, and none is made twice.
pub proof fn law_context_calls_come_in_their_order<C, I, S, K>(
    builder: BuilderSettings<C, I, S, K>,
    opts: TlsOptions,
    i: int,
    j: int,
)
    requires
        0 <= i < j < builder.context_calls(opts).len(),
    ensures
        place(builder.context_calls(opts)[i]) < place(builder.context_calls(opts)[j]),
{
    lemma_context(builder, opts, ContextCall::Create);
}

/// A step that is handed out is the call that it stands for: whoever makes the call
/// makes it with the values that were decided on.
pub proof fn law_context_steps_are_their_calls<'a, C, I, S, K>(
    step: ContextStep<'a, C, I, S, K>,
    call: ContextCall<C, I, S, K>,
)
    ensures
        step@ == call <==> (match (step, call) {
            (ContextStep::Create, ContextCall::Create) => true,
            (ContextStep::CertStore(None), ContextCall::CertStore(None)) => true,
            (ContextStep::CertStore(Some(a)), ContextCall::CertStore(Some(b))) => *a == b,
            (ContextStep::CertVerification(a), ContextCall::CertVerification(b)) => a == b,
            (
                ContextStep::CertificateCompression(None),
                ContextCall::CertificateCompression(None),
            ) => true,
            (
                ContextStep::CertificateCompression(Some(a)),
                ContextCall::CertificateCompression(Some(b)),
            ) => a@ == b,
            (ContextStep::Identity(a), ContextCall::Identity(b)) => *a == b,
            (ContextStep::MinProtoVersion(a), ContextCall::MinProtoVersion(b)) => a == b,
            (ContextStep::MaxProtoVersion(a), ContextCall::MaxProtoVersion(b)) => a == b,
            (ContextStep::OcspStapling, ContextCall::OcspStapling) => true,
            (ContextStep::SignedCertTimestamps, ContextCall::SignedCertTimestamps) => true,
            (ContextStep::SwitchOff(a), ContextCall::SwitchOff(b)) => a == b,
            (ContextStep::GreaseEnabled(a), ContextCall::GreaseEnabled(b)) => a == b,
            (ContextStep::PermuteExtensions(a), ContextCall::PermuteExtensions(b)) => a == b,
            (ContextStep::CurvesList(a), ContextCall::CurvesList(b)) => a@ == b,
            (ContextStep::SigalgsList(a), ContextCall::SigalgsList(b)) => a@ == b,
            (
                ContextStep::PreserveTls13CipherList(a),
                ContextCall::PreserveTls13CipherList(b),
            ) => a == b,
            (ContextStep::CipherList(a), ContextCall::CipherList(b)) => a@ == b,
            (ContextStep::DelegatedCredentials(a), ContextCall::DelegatedCredentials(b)) => a@ == b,
            (ContextStep::RecordSizeLimit(a), ContextCall::RecordSizeLimit(b)) => a == b,
            (ContextStep::KeySharesLimit(a), ContextCall::KeySharesLimit(b)) => a == b,
            (ContextStep::AesHwOverride(a), ContextCall::AesHwOverride(b)) => a == b,
            (ContextStep::ExtensionPermutation(a), ContextCall::ExtensionPermutation(b)) => a@ == b,
            (ContextStep::Keylog(a), ContextCall::Keylog(b)) => *a == b,
            (ContextStep::ClientSessionCacheMode, ContextCall::ClientSessionCacheMode) => true,
            (ContextStep::NewSessionCallback(a), ContextCall::NewSessionCallback(b)) => **a == b,
            (ContextStep::MessageCallback, ContextCall::MessageCallback) => true,
            (ContextStep::VerifyCallback, ContextCall::VerifyCallback) => true,
            _ => false,
        }),
{
}

/// Every step of a list asks for its own call, at its own place in the list.
pub proof fn law_context_steps_are_asked_one_by_one<'a, C, I, S, K>(
    steps: Seq<ContextStep<'a, C, I, S, K>>,
)
    ensures
        asked(steps).len() == steps.len(),
        forall|i: int| 0 <= i < steps.len() ==> #[trigger] asked(steps)[i] == steps[i]@,
{
}

/// A call of a context setup that went well is off the list, and the next one is next;
/// one that failed ends the setup for good. What the connector is made with stays.
pub proof fn law_context_goes_on_until_a_call_fails<C, I, S, K>(
    setup: ContextProgress<C, I, S, K>,
    went_well: bool,
)
    requires
        setup.calls.pending.len() > 0,
    ensures
        ({
            let after = setup.after_call(went_well);
            &&& went_well ==> after.calls.pending.len() == setup.calls.pending.len() - 1
            &&& went_well ==> forall|i: int|
                0 <= i < after.calls.pending.len() ==> #[trigger] after.calls.pending[i]
                    == setup.calls.pending[i + 1]
            &&& went_well ==> after.calls.failed == setup.calls.failed
            &&& !went_well ==> after.calls.pending.len() == 0 && after.calls.failed
            &&& !went_well ==> !after.calls.complete()
            &&& after.calls.complete() <==> (went_well && !setup.calls.failed
                && setup.calls.pending.len() == 1)
            &&& after.cache == setup.cache
            &&& after.config == setup.config
        }),
{
}

/// The settings of the connections of a connector are those of its builder and its
/// options, each from its own source; the options name the protocols unless the
/// builder names one.
pub proof fn law_connections_are_set_up_as_built<C, I, S, K>(
    builder: BuilderSettings<C, I, S, K>,
    opts: TlsOptions,
)
    ensures
        ({
            let settings = builder.handshake_settings(opts);
            &&& settings.tls_sni <==> builder.tls_sni
            &&& settings.verify_hostname <==> builder.verify_hostname
            &&& settings.no_ticket <==> opts.psk_skip_session_ticket
            &&& settings.enable_ech_grease <==> opts.enable_ech_grease
            &&& settings.alps_use_new_codepoint <==> opts.alps_use_new_codepoint
            &&& settings.random_aes_hw_override <==> opts.random_aes_hw_override
            &&& opts.alps_protocols matches Some(list) ==> settings.alps_protocols == Some(list@)
            &&& opts.alps_protocols is None ==> settings.alps_protocols is None
            &&& builder.alpn_protocol matches Some(protocol) ==> settings.alpn_protocols
                == Some(seq![protocol])
            &&& builder.alpn_protocol is None ==> (opts.alpn_protocols matches Some(list)
                ==> settings.alpn_protocols == Some(list@))
            &&& builder.alpn_protocol is None && opts.alpn_protocols is None
                ==> settings.alpn_protocols is None
        }),
        builder.connection_cache(opts) == (if opts.pre_shared_key {
            Some(builder.session_cache)
        } else {
            None
        }),
{
}

/// A builder that nothing was set on verifies certificates and host names, sends the
/// server name, keeps its sessions in the cache that it was made with, which is for
/// eight sessions, and chooses nothing else.
pub proof fn law_new_builder_is_careful<C, I, S, K>(cache: C)
    ensures
        ({
            let builder = default_builder_settings::<C, I, S, K>(cache);
            &&& builder.session_cache == cache
            &&& builder.cert_verification
            &&& builder.verify_hostname
            &&& builder.tls_sni
            &&& builder.alpn_protocol is None
            &&& builder.min_version is None
            &&& builder.max_version is None
            &&& builder.identity is None
            &&& builder.cert_store is None
            &&& builder.keylog is None
        }),
        DEFAULT_SESSION_CACHE_CAPACITY == 8,
{
}

/// A shared handle stands for the value behind it.
pub proof fn law_handles_stand_for_their_values<T>(value: Option<Arc<T>>)
    ensures
        maybe_shared(value) is Some <==> value is Some,
        value matches Some(handle) ==> maybe_shared(value) == Some(*handle),
{
}

} // verus!
