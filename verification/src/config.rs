//! The settings that every connection of a connector is made with.

use std::borrow::Cow;
use vstd::prelude::*;

use crate::alpn::{AlpnProtocol, AlpsProtocol};

verus! {

/// What a [`HandshakeConfig`] holds.
#[verifier::ext_equal]
pub struct HandshakeSettings {
    pub no_ticket: bool,
    pub enable_ech_grease: bool,
    pub verify_hostname: bool,
    pub tls_sni: bool,
    pub alpn_protocols: Option<Seq<AlpnProtocol>>,
    pub alps_protocols: Option<Seq<AlpsProtocol>>,
    pub alps_use_new_codepoint: bool,
    pub random_aes_hw_override: bool,
}

/// The settings of a configuration that nothing was set on.
pub open spec fn default_handshake_settings() -> HandshakeSettings {
    HandshakeSettings {
        no_ticket: false,
        enable_ech_grease: false,
        verify_hostname: true,
        tls_sni: true,
        alpn_protocols: None,
        alps_protocols: None,
        alps_use_new_codepoint: false,
        random_aes_hw_override: false,
    }
}

/// A call of a setter of [`HandshakeConfigBuilder`], with its argument.
pub enum HandshakeSetter {
    NoTicket(bool),
    EnableEchGrease(bool),
    VerifyHostname(bool),
    TlsSni(bool),
    AlpnProtocols(Option<Seq<AlpnProtocol>>),
    AlpsProtocols(Option<Seq<AlpsProtocol>>),
    AlpsUseNewCodepoint(bool),
    RandomAesHwOverride(bool),
}

impl HandshakeSetter {
    /// Whether two calls are calls of one setter.
    pub open spec fn same_setter(self, other: HandshakeSetter) -> bool {
        match self {
            HandshakeSetter::NoTicket(_) => other is NoTicket,
            HandshakeSetter::EnableEchGrease(_) => other is EnableEchGrease,
            HandshakeSetter::VerifyHostname(_) => other is VerifyHostname,
            HandshakeSetter::TlsSni(_) => other is TlsSni,
            HandshakeSetter::AlpnProtocols(_) => other is AlpnProtocols,
            HandshakeSetter::AlpsProtocols(_) => other is AlpsProtocols,
            HandshakeSetter::AlpsUseNewCodepoint(_) => other is AlpsUseNewCodepoint,
            HandshakeSetter::RandomAesHwOverride(_) => other is RandomAesHwOverride,
        }
    }
}

impl HandshakeSettings {
    /// The settings after a setter was called: the field of that name has changed, and
    /// no other.
    pub open spec fn set(self, call: HandshakeSetter) -> HandshakeSettings {
        match call {
            HandshakeSetter::NoTicket(no_ticket) => HandshakeSettings { no_ticket, ..self },
            HandshakeSetter::EnableEchGrease(enable_ech_grease) => HandshakeSettings { enable_ech_grease, ..self },
            HandshakeSetter::VerifyHostname(verify_hostname) => HandshakeSettings { verify_hostname, ..self },
            HandshakeSetter::TlsSni(tls_sni) => HandshakeSettings { tls_sni, ..self },
            HandshakeSetter::AlpnProtocols(alpn_protocols) => HandshakeSettings { alpn_protocols, ..self },
            HandshakeSetter::AlpsProtocols(alps_protocols) => HandshakeSettings { alps_protocols, ..self },
            HandshakeSetter::AlpsUseNewCodepoint(alps_use_new_codepoint) => HandshakeSettings { alps_use_new_codepoint, ..self },
            HandshakeSetter::RandomAesHwOverride(random_aes_hw_override) => HandshakeSettings { random_aes_hw_override, ..self },
        }
    }
}

/// The settings of a configuration that was built by these calls, in this order.
pub open spec fn handshake_settings_after(calls: Seq<HandshakeSetter>) -> HandshakeSettings
    decreases calls.len(),
{
    if calls.len() == 0 {
        default_handshake_settings()
    } else {
        handshake_settings_after(calls.drop_last()).set(calls.last())
    }
}

/// The argument of the last of those calls that `argument` finds one in, or `default`
/// if there is no such call.
pub open spec fn last_argument<A, T>(
    calls: Seq<A>,
    argument: spec_fn(A) -> Option<T>,
    default: T,
) -> T
    decreases calls.len(),
{
    if calls.len() == 0 {
        default
    } else {
        match argument(calls.last()) {
            Some(value) => value,
            None => last_argument(calls.drop_last(), argument, default),
        }
    }
}

/// The items of an optional list.
pub open spec fn listed<T: View + Clone>(list: Option<Cow<'static, [T]>>) -> Option<Seq<T>> {
    match list {
        Some(items) => Some(items@),
        None => None,
    }
}

/// Builds a [`HandshakeConfig`].
pub struct HandshakeConfigBuilder {
    settings: HandshakeConfig,
}

/// Settings of the connections that a connector makes.
#[derive(Debug)]
pub struct HandshakeConfig {
    no_ticket: bool,
    enable_ech_grease: bool,
    verify_hostname: bool,
    tls_sni: bool,
    alpn_protocols: Option<Cow<'static, [AlpnProtocol]>>,
    alps_protocols: Option<Cow<'static, [AlpsProtocol]>>,
    alps_use_new_codepoint: bool,
    random_aes_hw_override: bool,
}

impl View for HandshakeConfig {
    type V = HandshakeSettings;

    closed spec fn view(&self) -> HandshakeSettings {
        HandshakeSettings {
            no_ticket: self.no_ticket,
            enable_ech_grease: self.enable_ech_grease,
            verify_hostname: self.verify_hostname,
            tls_sni: self.tls_sni,
            alpn_protocols: listed(self.alpn_protocols),
            alps_protocols: listed(self.alps_protocols),
            alps_use_new_codepoint: self.alps_use_new_codepoint,
            random_aes_hw_override: self.random_aes_hw_override,
        }
    }
}

impl View for HandshakeConfigBuilder {
    type V = HandshakeSettings;

    closed spec fn view(&self) -> HandshakeSettings {
        self.settings@
    }
}

/// Copies an optional list.
pub(crate) fn copy_list<T: View + Copy>(list: &Option<Cow<'static, [T]>>) -> (r: Option<
    Cow<'static, [T]>,
>)
    ensures
        listed(r) == listed(*list),
{
    match list {
        Some(Cow::Borrowed(items)) => Some(Cow::Borrowed(*items)),
        Some(Cow::Owned(items)) => {
            let mut copy: Vec<T> = Vec::new();
            let mut i: usize = 0;
            while i < items.len()
                invariant
                    i <= items@.len(),
                    copy@ == items@.take(i as int),
                decreases items@.len() - i,
            {
                copy.push(items[i]);
                i += 1;
            }
            assert(items@.take(i as int) == items@);
            Some(Cow::Owned(copy))
        },
        None => None,
    }
}

impl HandshakeConfigBuilder {
    /// Skips the session ticket.
    pub fn no_ticket(self, skip: bool) -> (r: Self)
        ensures
            r@ == self@.set(HandshakeSetter::NoTicket(skip)),
    {
        HandshakeConfigBuilder {
            settings: HandshakeConfig { no_ticket: skip, ..self.settings },
        }
    }

    /// Enables or disables ECH grease.
    pub fn enable_ech_grease(self, enable: bool) -> (r: Self)
        ensures
            r@ == self@.set(HandshakeSetter::EnableEchGrease(enable)),
    {
        HandshakeConfigBuilder {
            settings: HandshakeConfig { enable_ech_grease: enable, ..self.settings },
        }
    }

    /// Sets hostname verification.
    pub fn verify_hostname(self, verify: bool) -> (r: Self)
        ensures
            r@ == self@.set(HandshakeSetter::VerifyHostname(verify)),
    {
        HandshakeConfigBuilder {
            settings: HandshakeConfig { verify_hostname: verify, ..self.settings },
        }
    }

    /// Sets TLS SNI.
    pub fn tls_sni(self, sni: bool) -> (r: Self)
        ensures
            r@ == self@.set(HandshakeSetter::TlsSni(sni)),
    {
        HandshakeConfigBuilder {
            settings: HandshakeConfig { tls_sni: sni, ..self.settings },
        }
    }

    /// Sets ALPN protocols.
    pub fn alpn_protocols(self, alpn_protocols: Option<Cow<'static, [AlpnProtocol]>>) -> (r:
        Self)
        ensures
            r@ == self@.set(HandshakeSetter::AlpnProtocols(listed(alpn_protocols))),
    {
        HandshakeConfigBuilder {
            settings: HandshakeConfig { alpn_protocols, ..self.settings },
        }
    }

    /// Sets ALPS protocols.
    pub fn alps_protocols(self, alps_protocols: Option<Cow<'static, [AlpsProtocol]>>) -> (r:
        Self)
        ensures
            r@ == self@.set(HandshakeSetter::AlpsProtocols(listed(alps_protocols))),
    {
        HandshakeConfigBuilder {
            settings: HandshakeConfig { alps_protocols, ..self.settings },
        }
    }

    /// Sets ALPS new codepoint usage.
    pub fn alps_use_new_codepoint(self, use_new: bool) -> (r: Self)
        ensures
            r@ == self@.set(HandshakeSetter::AlpsUseNewCodepoint(use_new)),
    {
        HandshakeConfigBuilder {
            settings: HandshakeConfig { alps_use_new_codepoint: use_new, ..self.settings },
        }
    }

    /// Sets random AES hardware override.
    pub fn random_aes_hw_override(self, override_: bool) -> (r: Self)
        ensures
            r@ == self@.set(HandshakeSetter::RandomAesHwOverride(override_)),
    {
        HandshakeConfigBuilder {
            settings: HandshakeConfig { random_aes_hw_override: override_, ..self.settings },
        }
    }

    /// Builds the `HandshakeConfig`.
    pub fn build(self) -> (r: HandshakeConfig)
        ensures
            r@ == self@,
    {
        self.settings
    }
}

impl HandshakeConfig {
    /// Creates a new `HandshakeConfigBuilder`, with the default settings.
    pub fn builder() -> (r: HandshakeConfigBuilder)
        ensures
            r@ == default_handshake_settings(),
    {
        HandshakeConfigBuilder { settings: HandshakeConfig::default() }
    }

    pub(crate) fn no_ticket(&self) -> (r: bool)
        ensures
            r == self@.no_ticket,
    {
        self.no_ticket
    }

    pub(crate) fn enable_ech_grease(&self) -> (r: bool)
        ensures
            r == self@.enable_ech_grease,
    {
        self.enable_ech_grease
    }

    pub(crate) fn verify_hostname(&self) -> (r: bool)
        ensures
            r == self@.verify_hostname,
    {
        self.verify_hostname
    }

    pub(crate) fn tls_sni(&self) -> (r: bool)
        ensures
            r == self@.tls_sni,
    {
        self.tls_sni
    }

    pub(crate) fn alpn_protocols(&self) -> (r: Option<&[AlpnProtocol]>)
        ensures
            r is Some <==> self@.alpn_protocols is Some,
            r matches Some(items) ==> self@.alpn_protocols == Some(items@),
    {
        match &self.alpn_protocols {
            Some(Cow::Borrowed(items)) => Some(*items),
            Some(Cow::Owned(items)) => Some(items.as_slice()),
            None => None,
        }
    }

    pub(crate) fn alps_protocols(&self) -> (r: Option<&[AlpsProtocol]>)
        ensures
            r is Some <==> self@.alps_protocols is Some,
            r matches Some(items) ==> self@.alps_protocols == Some(items@),
    {
        match &self.alps_protocols {
            Some(Cow::Borrowed(items)) => Some(*items),
            Some(Cow::Owned(items)) => Some(items.as_slice()),
            None => None,
        }
    }

    pub(crate) fn alps_use_new_codepoint(&self) -> (r: bool)
        ensures
            r == self@.alps_use_new_codepoint,
    {
        self.alps_use_new_codepoint
    }

    pub(crate) fn random_aes_hw_override(&self) -> (r: bool)
        ensures
            r == self@.random_aes_hw_override,
    {
        self.random_aes_hw_override
    }

    /// Forgets the ALPN protocols.
    pub(crate) fn clear_alpn_protocols(&mut self)
        ensures
            final(self)@ == (HandshakeSettings { alpn_protocols: None, ..old(self)@ }),
    {
        self.alpn_protocols = None;
    }
}

impl Default for HandshakeConfig {
    fn default() -> (r: Self)
        ensures
            r@ == default_handshake_settings(),
    {
        HandshakeConfig {
            no_ticket: false,
            enable_ech_grease: false,
            verify_hostname: true,
            tls_sni: true,
            alpn_protocols: None,
            alps_protocols: None,
            alps_use_new_codepoint: false,
            random_aes_hw_override: false,
        }
    }
}

impl Clone for HandshakeConfig {
    fn clone(&self) -> (r: Self)
        ensures
            r@ == self@,
    {
        HandshakeConfig {
            no_ticket: self.no_ticket,
            enable_ech_grease: self.enable_ech_grease,
            verify_hostname: self.verify_hostname,
            tls_sni: self.tls_sni,
            alpn_protocols: copy_list(&self.alpn_protocols),
            alps_protocols: copy_list(&self.alps_protocols),
            alps_use_new_codepoint: self.alps_use_new_codepoint,
            random_aes_hw_override: self.random_aes_hw_override,
        }
    }
}

/// Whatever setters are called, and in whatever order: each field holds the argument
/// of the last call of the setter of its name. If there was none, it holds the default:
/// host names are verified and sent, and nothing else is chosen.
pub proof fn law_last_call_of_each_setter_counts(calls: Seq<HandshakeSetter>)
    ensures
        handshake_settings_after(calls).no_ticket == last_argument(
            calls,
            |call: HandshakeSetter|
                match call {
                    HandshakeSetter::NoTicket(argument) => Some(argument),
                    _ => None,
                },
            false,
        ),
        handshake_settings_after(calls).enable_ech_grease == last_argument(
            calls,
            |call: HandshakeSetter|
                match call {
                    HandshakeSetter::EnableEchGrease(argument) => Some(argument),
                    _ => None,
                },
            false,
        ),
        handshake_settings_after(calls).verify_hostname == last_argument(
            calls,
            |call: HandshakeSetter|
                match call {
                    HandshakeSetter::VerifyHostname(argument) => Some(argument),
                    _ => None,
                },
            true,
        ),
        handshake_settings_after(calls).tls_sni == last_argument(
            calls,
            |call: HandshakeSetter|
                match call {
                    HandshakeSetter::TlsSni(argument) => Some(argument),
                    _ => None,
                },
            true,
        ),
        handshake_settings_after(calls).alpn_protocols == last_argument(
            calls,
            |call: HandshakeSetter|
                match call {
                    HandshakeSetter::AlpnProtocols(argument) => Some(argument),
                    _ => None,
                },
            None,
        ),
        handshake_settings_after(calls).alps_protocols == last_argument(
            calls,
            |call: HandshakeSetter|
                match call {
                    HandshakeSetter::AlpsProtocols(argument) => Some(argument),
                    _ => None,
                },
            None,
        ),
        handshake_settings_after(calls).alps_use_new_codepoint == last_argument(
            calls,
            |call: HandshakeSetter|
                match call {
                    HandshakeSetter::AlpsUseNewCodepoint(argument) => Some(argument),
                    _ => None,
                },
            false,
        ),
        handshake_settings_after(calls).random_aes_hw_override == last_argument(
            calls,
            |call: HandshakeSetter|
                match call {
                    HandshakeSetter::RandomAesHwOverride(argument) => Some(argument),
                    _ => None,
                },
            false,
        ),
    decreases calls.len(),
{
    if calls.len() > 0 {
        law_last_call_of_each_setter_counts(calls.drop_last());
    }
}

/// Calls of different setters commute, and of two calls of one setter the second
/// counts.
pub proof fn law_setters_commute(
    settings: HandshakeSettings,
    first: HandshakeSetter,
    second: HandshakeSetter,
)
    ensures
        !first.same_setter(second) ==> settings.set(first).set(second) == settings.set(second).set(
            first,
        ),
        first.same_setter(second) ==> settings.set(first).set(second) == settings.set(second),
{
}

/// An optional list counts with all its items, in order; one that is left out counts as
/// left out.
pub proof fn law_lists_count_whole<T: View + Clone>(list: Option<Cow<'static, [T]>>)
    ensures
        listed(list) is Some <==> list is Some,
        list matches Some(items) ==> listed(list)->0.len() == items@.len() && forall|i: int|
            0 <= i < items@.len() ==> #[trigger] listed(list)->0[i] == items@[i],
{
}

} // verus!
