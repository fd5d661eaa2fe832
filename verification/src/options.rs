//! The options that a TLS context is made with.

use std::borrow::Cow;
use vstd::prelude::*;

use crate::alpn::{AlpnProtocol, AlpsProtocol};

verus! {

/// A version of the TLS protocol.
#[allow(non_camel_case_types)]
#[derive(Clone, Copy, Debug, PartialEq, Eq, Structural)]
pub enum TlsVersion {
    TLS_1_0,
    TLS_1_1,
    TLS_1_2,
    TLS_1_3,
}

/// An algorithm that certificates can be compressed with.
#[derive(Clone, Copy, Debug, PartialEq, Eq, Structural)]
pub enum CertificateCompressionAlgorithm {
    Zlib,
    Brotli,
    Zstd,
}

/// The number of a TLS extension.
#[derive(Clone, Copy, Debug, PartialEq, Eq, Structural)]
pub struct ExtensionType(pub u16);

impl View for CertificateCompressionAlgorithm {
    type V = CertificateCompressionAlgorithm;

    open spec fn view(&self) -> CertificateCompressionAlgorithm {
        *self
    }
}

impl View for ExtensionType {
    type V = u16;

    open spec fn view(&self) -> u16 {
        self.0
    }
}

/// Options of a TLS context. A list or value that is `None` stays as the TLS
/// engine has it.
pub struct TlsOptions {
    pub alpn_protocols: Option<Cow<'static, [AlpnProtocol]>>,
    pub alps_protocols: Option<Cow<'static, [AlpsProtocol]>>,
    pub alps_use_new_codepoint: bool,
    pub session_ticket: bool,
    pub min_tls_version: Option<TlsVersion>,
    pub max_tls_version: Option<TlsVersion>,
    pub pre_shared_key: bool,
    pub enable_ech_grease: bool,
    pub permute_extensions: Option<bool>,
    pub grease_enabled: Option<bool>,
    pub enable_ocsp_stapling: bool,
    pub enable_signed_cert_timestamps: bool,
    pub record_size_limit: Option<u16>,
    pub psk_skip_session_ticket: bool,
    pub key_shares_limit: Option<u8>,
    pub psk_dhe_ke: bool,
    pub renegotiation: bool,
    pub delegated_credentials: Option<Cow<'static, str>>,
    pub curves_list: Option<Cow<'static, str>>,
    pub cipher_list: Option<Cow<'static, str>>,
    pub sigalgs_list: Option<Cow<'static, str>>,
    pub certificate_compression_algorithms: Option<
        Cow<'static, [CertificateCompressionAlgorithm]>,
    >,
    pub extension_permutation: Option<Cow<'static, [ExtensionType]>>,
    pub aes_hw_override: Option<bool>,
    pub preserve_tls13_cipher_list: Option<bool>,
    pub random_aes_hw_override: bool,
}

/// The text of a string that is borrowed or owned.
pub(crate) fn text<'a>(value: &'a Cow<'static, str>) -> (r: &'a str)
    ensures
        r@ == value@,
{
    match value {
        Cow::Borrowed(text) => *text,
        Cow::Owned(text) => text.as_str(),
    }
}

/// The items of a list that is borrowed or owned.
pub(crate) fn items<'a, T: View + Copy>(list: &'a Cow<'static, [T]>) -> (r: &'a [T])
    ensures
        r@ == list@,
{
    match list {
        Cow::Borrowed(items) => *items,
        Cow::Owned(items) => items.as_slice(),
    }
}

} // verus!
