//! What is reported of the TLS side of a connection.

use bytes::Bytes;
use vstd::prelude::*;
use vstd::slice::slice_to_vec;

use crate::capture::{
    collect_encodings, Captured, Certificate, HandshakeCapture,
};
use crate::shared::{
    bytes_as_slice, copy_bytes, copy_bytes_list, to_bytes, to_bytes_list,
};

verus! {

/// TLS information of a connection.
#[derive(Debug)]
pub struct TlsInfo {
    pub peer_certificate: Option<Bytes>,
    pub peer_certificate_chain: Option<Vec<Bytes>>,
    pub captured_chain_der: Option<Vec<Bytes>>,
    pub server_hello: Option<Bytes>,
    pub encrypted_extensions: Option<Bytes>,
}

/// The contents of a [`TlsInfo`].
#[verifier::ext_equal]
pub struct TlsDetails {
    pub peer_certificate: Option<Seq<u8>>,
    pub peer_certificate_chain: Option<Seq<Seq<u8>>>,
    pub captured_chain_der: Option<Seq<Seq<u8>>>,
    pub server_hello: Option<Seq<u8>>,
    pub encrypted_extensions: Option<Seq<u8>>,
}

/// The contents of an optional buffer.
pub open spec fn maybe_octets(buffer: Option<Bytes>) -> Option<Seq<u8>> {
    match buffer {
        Some(buffer) => Some(crate::shared::octets(buffer)),
        None => None,
    }
}

/// The contents of an optional list of buffers.
pub open spec fn maybe_all_octets(buffers: Option<Vec<Bytes>>) -> Option<Seq<Seq<u8>>> {
    match buffers {
        Some(buffers) => Some(crate::shared::all_octets(buffers@)),
        None => None,
    }
}

impl View for TlsInfo {
    type V = TlsDetails;

    open spec fn view(&self) -> TlsDetails {
        TlsDetails {
            peer_certificate: maybe_octets(self.peer_certificate),
            peer_certificate_chain: maybe_all_octets(self.peer_certificate_chain),
            captured_chain_der: maybe_all_octets(self.captured_chain_der),
            server_hello: maybe_octets(self.server_hello),
            encrypted_extensions: maybe_octets(self.encrypted_extensions),
        }
    }
}

/// What a TLS session shows of itself: what was captured of its handshake, and
/// what the engine kept of the peer.
pub struct SslState {
    pub capture: HandshakeCapture,
    pub peer_certificate: Option<Certificate>,
    pub peer_cert_chain: Option<Vec<Certificate>>,
    pub selected_alpn_protocol: Option<Vec<u8>>,
}

/// The leaf certificate of a session: the one that the engine kept, if it can
/// be encoded, else the first one of the captured chain.
pub open spec fn leaf_certificate(
    kept: Option<Certificate>,
    captured_chain: Option<Seq<Seq<u8>>>,
) -> Option<Seq<u8>> {
    match kept {
        Some(certificate) if certificate@ is Some => certificate@,
        _ => match captured_chain {
            Some(chain) if chain.len() > 0 => Some(chain[0]),
            _ => None,
        },
    }
}

/// The chain of a session: the captured one, else the one that the engine kept.
/// The engine does not always keep one when verification is disabled.
pub open spec fn certificate_chain(
    kept: Option<Vec<Certificate>>,
    captured_chain: Option<Seq<Seq<u8>>>,
) -> Option<Seq<Seq<u8>>> {
    match captured_chain {
        Some(chain) => Some(chain),
        None => match kept {
            Some(chain) => Some(crate::capture::encodings(chain@)),
            None => None,
        },
    }
}

/// What is reported of a session.
pub open spec fn session_details(ssl: SslState) -> TlsDetails {
    let captured_chain = ssl.capture@.captured_chain_der.get();
    TlsDetails {
        peer_certificate: leaf_certificate(ssl.peer_certificate, captured_chain),
        peer_certificate_chain: certificate_chain(ssl.peer_cert_chain, captured_chain),
        captured_chain_der: captured_chain,
        server_hello: ssl.capture@.server_hello.get(),
        encrypted_extensions: ssl.capture@.encrypted_extensions.get(),
    }
}

impl TlsInfo {
    /// The DER encoding of the leaf certificate of the peer.
    pub fn peer_certificate(&self) -> (r: Option<&[u8]>)
        ensures
            self@.peer_certificate == (match r {
                Some(der) => Some(der@),
                None => None,
            }),
    {
        match &self.peer_certificate {
            Some(der) => Some(bytes_as_slice(der)),
            None => None,
        }
    }

    /// The DER encodings of the chain that was captured during the handshake.
    pub fn captured_chain_der_bytes(&self) -> (r: Option<&Vec<Bytes>>)
        ensures
            r == (match self.captured_chain_der {
                Some(chain) => Some(&chain),
                None => None,
            }),
    {
        self.captured_chain_der.as_ref()
    }
}

impl Clone for TlsInfo {
    fn clone(&self) -> (r: Self)
        ensures
            r@ == self@,
    {
        TlsInfo {
            peer_certificate: copy_maybe(&self.peer_certificate),
            peer_certificate_chain: copy_maybe_list(&self.peer_certificate_chain),
            captured_chain_der: copy_maybe_list(&self.captured_chain_der),
            server_hello: copy_maybe(&self.server_hello),
            encrypted_extensions: copy_maybe(&self.encrypted_extensions),
        }
    }
}

fn copy_maybe(buffer: &Option<Bytes>) -> (r: Option<Bytes>)
    ensures
        maybe_octets(r) == maybe_octets(*buffer),
{
    match buffer {
        Some(buffer) => Some(copy_bytes(buffer)),
        None => None,
    }
}

pub(crate) fn copy_maybe_list(buffers: &Option<Vec<Bytes>>) -> (r: Option<Vec<Bytes>>)
    ensures
        maybe_all_octets(r) == maybe_all_octets(*buffers),
{
    match buffers {
        Some(buffers) => Some(copy_bytes_list(buffers)),
        None => None,
    }
}

fn to_maybe_bytes(data: Option<Vec<u8>>) -> (r: Option<Bytes>)
    ensures
        maybe_octets(r) == (match data {
            Some(data) => Some(data@),
            None => None,
        }),
{
    match data {
        Some(data) => Some(to_bytes(data)),
        None => None,
    }
}

fn find_leaf(kept: &Option<Certificate>, captured_chain: &Option<Vec<Bytes>>) -> (r: Option<Bytes>)
    ensures
        maybe_octets(r) == leaf_certificate(*kept, maybe_all_octets(*captured_chain)),
{
    if let Some(Certificate { der: Some(der) }) = kept {
        return Some(to_bytes(slice_to_vec(der.as_slice())));
    }
    match captured_chain {
        Some(chain) => {
            if chain.len() > 0 {
                Some(copy_bytes(&chain[0]))
            } else {
                None
            }
        },
        None => None,
    }
}

fn find_chain(kept: &Option<Vec<Certificate>>, captured_chain: &Option<Vec<Bytes>>) -> (r: Option<
    Vec<Bytes>,
>)
    ensures
        maybe_all_octets(r) == certificate_chain(*kept, maybe_all_octets(*captured_chain)),
{
    match captured_chain {
        Some(chain) => Some(copy_bytes_list(chain)),
        None => match kept {
            Some(chain) => Some(to_bytes_list(collect_encodings(chain))),
            None => None,
        },
    }
}

/// Collects what is reported of a session.
pub fn extract_tls_info(ssl: &SslState) -> (r: TlsInfo)
    ensures
        r@ == session_details(*ssl),
{
    let captured_chain_der = match ssl.capture.captured_chain_der() {
        Some(chain) => Some(to_bytes_list(chain)),
        None => None,
    };
    let peer_certificate = find_leaf(&ssl.peer_certificate, &captured_chain_der);
    let peer_certificate_chain = find_chain(&ssl.peer_cert_chain, &captured_chain_der);
    TlsInfo {
        peer_certificate,
        peer_certificate_chain,
        captured_chain_der,
        server_hello: to_maybe_bytes(ssl.capture.server_hello()),
        encrypted_extensions: to_maybe_bytes(ssl.capture.encrypted_extensions()),
    }
}

/// A trait for extracting TLS information from a connection.
///
/// Implementors can provide access to peer certificate data or other TLS-related metadata.
/// For non-TLS connections, this typically returns `None`.
pub trait TlsInfoFactory {
    fn tls_info(&self) -> Option<TlsInfo>;
}

/// Declares `tokio::net::TcpStream`; nothing is known of its values.
#[verifier::external_type_specification]
#[verifier::external_body]
pub struct ExTcpStream(tokio::net::TcpStream);

/// Declares `tokio::net::UnixStream`; nothing is known of its values.
#[verifier::external_type_specification]
#[verifier::external_body]
pub struct ExUnixStream(tokio::net::UnixStream);

impl TlsInfoFactory for tokio::net::TcpStream {
    fn tls_info(&self) -> (r: Option<TlsInfo>)
        ensures
            r is None,
    {
        None
    }
}

impl TlsInfoFactory for tokio::net::UnixStream {
    fn tls_info(&self) -> (r: Option<TlsInfo>)
        ensures
            r is None,
    {
        None
    }
}

/// When the peer presented a chain of which at least one certificate can be
/// encoded, the report names a leaf certificate and the chain as it was
/// presented, even if the engine itself kept nothing of the peer.
pub proof fn law_presented_chain_is_reported(
    before: Captured,
    chain: Seq<Certificate>,
    i: int,
    ssl: SslState,
)
    requires
        before.captured_chain_der !is Closed,
        0 <= i < chain.len(),
        chain[i]@ is Some,
        ssl.capture@ == before.after_chain(Some(chain)),
    ensures
        session_details(ssl).peer_certificate is Some,
        session_details(ssl).peer_certificate_chain == Some(crate::capture::encodings(chain)),
        session_details(ssl).captured_chain_der == Some(crate::capture::encodings(chain)),
        ssl.peer_certificate is None ==> session_details(ssl).peer_certificate == Some(
            crate::capture::encodings(chain)[0],
        ),
{
    crate::capture::law_presented_chain_is_captured(before, chain, i);
}

/// The captured chain is preferred over the one that the engine kept, whatever
/// the engine kept.
pub proof fn law_captured_chain_is_preferred(ssl: SslState)
    requires
        ssl.capture@.captured_chain_der is Held,
    ensures
        session_details(ssl).peer_certificate_chain == ssl.capture@.captured_chain_der.get(),
        session_details(ssl).peer_certificate_chain == session_details(ssl).captured_chain_der,
{
}

/// What was captured of the ServerHello and the EncryptedExtensions is reported
/// as it was captured, whatever else the session shows.
pub proof fn law_captured_messages_are_reported(ssl: SslState)
    ensures
        session_details(ssl).server_hello == ssl.capture@.server_hello.get(),
        session_details(ssl).encrypted_extensions == ssl.capture@.encrypted_extensions.get(),
{
}

/// The certificate that the engine kept is the one that is reported if it can be
/// encoded, whatever was captured. If not, the first of the captured chain is, and if
/// there is none either, no certificate is reported.
pub proof fn law_kept_certificate_is_reported(ssl: SslState)
    ensures
        ({
            let reported = session_details(ssl).peer_certificate;
            let encoded = ssl.peer_certificate matches Some(kept) && kept.der is Some;
            let captured = match ssl.capture.captured_chain_der {
                crate::capture::Slot::Held(list) => list@,
                _ => Seq::empty(),
            };
            &&& encoded ==> reported == Some(ssl.peer_certificate->0.der->0@)
            &&& !encoded && captured.len() > 0 ==> reported == Some(captured[0]@)
            &&& !encoded && captured.len() == 0 ==> reported is None
        }),
{
}

/// The chain that is reported is the captured one, certificate by certificate; if none
/// was captured, it is what can be encoded of the one that the engine kept, and if there
/// is none either, no chain is reported. What is reported as captured is what was
/// captured.
pub proof fn law_reported_chain_is_the_captured_or_the_kept_one(ssl: SslState)
    ensures
        ({
            let details = session_details(ssl);
            &&& ssl.capture.captured_chain_der matches crate::capture::Slot::Held(list) ==> {
                &&& details.captured_chain_der is Some
                &&& details.peer_certificate_chain == details.captured_chain_der
                &&& details.captured_chain_der->0.len() == list@.len()
                &&& forall|i: int|
                    0 <= i < list@.len() ==> #[trigger] details.captured_chain_der->0[i]
                        == list@[i]@
            }
            &&& ssl.capture.captured_chain_der !is Held ==> {
                &&& details.captured_chain_der is None
                &&& ssl.peer_cert_chain is None ==> details.peer_certificate_chain is None
                &&& ssl.peer_cert_chain matches Some(kept) ==> details.peer_certificate_chain
                    == Some(crate::capture::encodings(kept@))
            }
        }),
{
}

/// The messages that are reported are those that were captured, each as its own.
pub proof fn law_reported_messages_are_the_captured_ones(ssl: SslState)
    ensures
        session_details(ssl).server_hello == (match ssl.capture.server_hello {
            crate::capture::Slot::Held(data) => Some(data@),
            _ => None,
        }),
        session_details(ssl).encrypted_extensions == (match ssl.capture.encrypted_extensions {
            crate::capture::Slot::Held(data) => Some(data@),
            _ => None,
        }),
{
}

/// A report shows what it holds, field by field and buffer by buffer.
pub proof fn law_report_shows_what_it_holds(info: TlsInfo)
    ensures
        info@.peer_certificate is Some <==> info.peer_certificate is Some,
        info.peer_certificate matches Some(buffer) ==> info@.peer_certificate->0
            == crate::shared::octets(buffer),
        info@.server_hello is Some <==> info.server_hello is Some,
        info.server_hello matches Some(buffer) ==> info@.server_hello->0 == crate::shared::octets(
            buffer,
        ),
        info@.encrypted_extensions is Some <==> info.encrypted_extensions is Some,
        info.encrypted_extensions matches Some(buffer) ==> info@.encrypted_extensions->0
            == crate::shared::octets(buffer),
        info@.peer_certificate_chain == maybe_all_octets(info.peer_certificate_chain),
        info@.captured_chain_der == maybe_all_octets(info.captured_chain_der),
{
}

/// A list of buffers shows the bytes of each of them, in order.
pub proof fn law_buffers_show_their_bytes(buffers: Option<Vec<Bytes>>)
    ensures
        maybe_all_octets(buffers) is Some <==> buffers is Some,
        buffers matches Some(list) ==> {
            let shown = maybe_all_octets(buffers)->0;
            &&& shown.len() == list@.len()
            &&& forall|i: int|
                0 <= i < list@.len() ==> #[trigger] shown[i] == crate::shared::octets(list@[i])
        },
{
}

} // verus!
