//! What is kept of a handshake while it runs.
//!
//! The capture belongs to the connection that it was taken from, so whoever
//! reads it later sees it, on whichever thread the handshake ran.

use vstd::prelude::*;
use vstd::slice::{slice_subrange, slice_to_vec};

verus! {

/// The record type of handshake messages.
pub const CONTENT_TYPE_HANDSHAKE: i32 = 22;

/// The handshake type of a ServerHello.
pub const SERVER_HELLO: u8 = 2;

/// The handshake type of EncryptedExtensions.
pub const ENCRYPTED_EXTENSIONS: u8 = 8;

/// A place on a connection where one captured value can be kept.
#[verifier::ext_equal]
pub enum Slot<T> {
    /// The place could not be reserved: nothing is ever kept there.
    Closed,
    /// Nothing was kept yet.
    Empty,
    /// The value kept last.
    Held(T),
}

impl<T> Slot<T> {
    /// The slot after a value was put there.
    pub open spec fn put(self, value: T) -> Slot<T> {
        match self {
            Slot::Closed => Slot::Closed,
            _ => Slot::Held(value),
        }
    }

    /// What can be read from the slot.
    pub open spec fn get(self) -> Option<T> {
        match self {
            Slot::Held(value) => Some(value),
            _ => None,
        }
    }

    /// Keeps a value in place of the one before, unless the slot is closed.
    pub fn set(&mut self, value: T)
        ensures
            *final(self) == old(self).put(value),
    {
        match self {
            Slot::Closed => {},
            _ => {
                *self = Slot::Held(value);
            },
        }
    }
}

/// A certificate of the peer, by its DER encoding; `None` if it could not be
/// encoded.
pub struct Certificate {
    pub der: Option<Vec<u8>>,
}

/// What was captured of a handshake so far.
pub struct HandshakeCapture {
    pub server_hello: Slot<Vec<u8>>,
    pub encrypted_extensions: Slot<Vec<u8>>,
    pub captured_chain_der: Slot<Vec<Vec<u8>>>,
}

/// The contents of a [`HandshakeCapture`].
#[verifier::ext_equal]
pub struct Captured {
    pub server_hello: Slot<Seq<u8>>,
    pub encrypted_extensions: Slot<Seq<u8>>,
    pub captured_chain_der: Slot<Seq<Seq<u8>>>,
}

/// The contents of each vector of a list.
pub open spec fn contents(list: Seq<Vec<u8>>) -> Seq<Seq<u8>> {
    list.map_values(|data: Vec<u8>| data@)
}

/// The contents of a slot for bytes.
pub open spec fn slot_bytes(slot: Slot<Vec<u8>>) -> Slot<Seq<u8>> {
    match slot {
        Slot::Closed => Slot::Closed,
        Slot::Empty => Slot::Empty,
        Slot::Held(data) => Slot::Held(data@),
    }
}

/// The contents of a slot for a chain.
pub open spec fn slot_chain(slot: Slot<Vec<Vec<u8>>>) -> Slot<Seq<Seq<u8>>> {
    match slot {
        Slot::Closed => Slot::Closed,
        Slot::Empty => Slot::Empty,
        Slot::Held(list) => Slot::Held(contents(list@)),
    }
}

impl View for HandshakeCapture {
    type V = Captured;

    open spec fn view(&self) -> Captured {
        Captured {
            server_hello: slot_bytes(self.server_hello),
            encrypted_extensions: slot_bytes(self.encrypted_extensions),
            captured_chain_der: slot_chain(self.captured_chain_der),
        }
    }
}

impl View for Certificate {
    type V = Option<Seq<u8>>;

    open spec fn view(&self) -> Option<Seq<u8>> {
        match self.der {
            Some(der) => Some(der@),
            None => None,
        }
    }
}

/// A message that came in as a handshake record and is long enough for the
/// four bytes of a handshake header.
pub open spec fn is_received_handshake(is_write: i32, content_type: i32, len: nat) -> bool {
    is_write == 0 && content_type == CONTENT_TYPE_HANDSHAKE && len >= 4
}

/// What is kept of a handshake message: what follows the four header bytes, or
/// the header itself if nothing follows it.
pub open spec fn kept_part(data: Seq<u8>) -> Seq<u8> {
    if data.len() > 4 {
        data.skip(4)
    } else {
        data
    }
}

/// The DER encodings of those certificates of a chain that have one, in order.
pub open spec fn encodings(chain: Seq<Certificate>) -> Seq<Seq<u8>>
    decreases chain.len(),
{
    if chain.len() == 0 {
        Seq::empty()
    } else {
        match chain.last()@ {
            Some(der) => encodings(chain.drop_last()).push(der),
            None => encodings(chain.drop_last()),
        }
    }
}

impl Captured {
    /// The capture after a message went by.
    pub open spec fn after_message(self, is_write: i32, content_type: i32, data: Seq<u8>) -> Captured {
        if !is_received_handshake(is_write, content_type, data.len()) {
            self
        } else if data[0] == SERVER_HELLO {
            Captured { server_hello: self.server_hello.put(kept_part(data)), ..self }
        } else if data[0] == ENCRYPTED_EXTENSIONS {
            Captured {
                encrypted_extensions: self.encrypted_extensions.put(kept_part(data)),
                ..self
            }
        } else {
            self
        }
    }

    /// The capture after the peer presented a chain, or none.
    pub open spec fn after_chain(self, chain: Option<Seq<Certificate>>) -> Captured {
        match chain {
            Some(chain) if encodings(chain).len() > 0 => Captured {
                captured_chain_der: self.captured_chain_der.put(encodings(chain)),
                ..self
            },
            _ => self,
        }
    }
}

/// The certificates of an optional chain.
pub open spec fn presented(chain: Option<Vec<Certificate>>) -> Option<Seq<Certificate>> {
    match chain {
        Some(chain) => Some(chain@),
        None => None,
    }
}

fn message_body(data: &[u8]) -> (r: Vec<u8>)
    ensures
        r@ == kept_part(data@),
{
    if data.len() > 4 {
        slice_to_vec(slice_subrange(data, 4, data.len()))
    } else {
        slice_to_vec(data)
    }
}

/// Whether a TLS message can be one to look into, by what is known without reading
/// it: it came in as a handshake record and has room for a handshake header.
pub fn may_be_captured(is_write: i32, content_type: i32, len: usize) -> (r: bool)
    ensures
        r == is_received_handshake(is_write, content_type, len as nat),
{
    is_write == 0 && content_type == CONTENT_TYPE_HANDSHAKE && len >= 4
}

/// Looks at a TLS message that went by and keeps what it carries of the
/// ServerHello and of the EncryptedExtensions.
///
/// `is_write` is not zero for a message that was sent, `content_type` is the
/// type of its record, and `data` starts with the handshake type.
pub fn server_hello_msg_callback(
    capture: &mut HandshakeCapture,
    is_write: i32,
    content_type: i32,
    data: &[u8],
)
    ensures
        final(capture)@ == old(capture)@.after_message(is_write, content_type, data@),
{
    if !may_be_captured(is_write, content_type, data.len()) {
        return;
    }
    if data[0] == SERVER_HELLO {
        let hello_body = message_body(data);
        capture.server_hello.set(hello_body);
    } else if data[0] == ENCRYPTED_EXTENSIONS {
        let ee_body = message_body(data);
        capture.encrypted_extensions.set(ee_body);
    }
}

/// The DER encodings of those certificates of a chain that have one.
pub(crate) fn collect_encodings(chain: &Vec<Certificate>) -> (r: Vec<Vec<u8>>)
    ensures
        contents(r@) == encodings(chain@),
{
    let mut out: Vec<Vec<u8>> = Vec::new();
    let mut i: usize = 0;
    assert(contents(out@) =~= encodings(chain@.take(0)));
    while i < chain.len()
        invariant
            i <= chain@.len(),
            contents(out@) == encodings(chain@.take(i as int)),
        decreases chain@.len() - i,
    {
        let ghost before = out@;
        if let Some(der) = &chain[i].der {
            let copy = slice_to_vec(der.as_slice());
            out.push(copy);
            assert(contents(out@) =~= contents(before).push(der@));
        }
        i += 1;
        proof {
            assert(chain@.take(i as int).drop_last() =~= chain@.take(i - 1));
            assert(chain@.take(i as int).last() == chain@[i - 1]);
        }
    }
    assert(chain@.take(i as int) =~= chain@);
    out
}

/// Keeps the chain that the peer presented and says whether the handshake may
/// go on. It always may: whether the chain is to be trusted is decided after
/// the handshake, from what was captured.
pub fn verify_peer(capture: &mut HandshakeCapture, chain: Option<Vec<Certificate>>) -> (r: bool)
    ensures
        r,
        final(capture)@ == old(capture)@.after_chain(presented(chain)),
{
    if let Some(chain) = chain {
        let der_chain = collect_encodings(&chain);
        assert(contents(der_chain@).len() == der_chain@.len());
        if der_chain.len() > 0 {
            capture.captured_chain_der.set(der_chain);
        }
    }
    true
}

fn copy_der_list(list: &Vec<Vec<u8>>) -> (r: Vec<Vec<u8>>)
    ensures
        contents(r@) == contents(list@),
{
    let mut out: Vec<Vec<u8>> = Vec::new();
    let mut i: usize = 0;
    while i < list.len()
        invariant
            i <= list@.len(),
            out@.len() == i,
            forall|j: int| 0 <= j < i ==> (#[trigger] out@[j])@ == list@[j]@,
        decreases list@.len() - i,
    {
        out.push(slice_to_vec(list[i].as_slice()));
        i += 1;
    }
    assert(contents(out@) =~= contents(list@));
    out
}

fn read_bytes(slot: &Slot<Vec<u8>>) -> (r: Option<Vec<u8>>)
    ensures
        slot_bytes(*slot).get() == (match r {
            Some(data) => Some(data@),
            None => None,
        }),
{
    match slot {
        Slot::Held(data) => Some(slice_to_vec(data.as_slice())),
        _ => None,
    }
}

impl HandshakeCapture {
    /// The body of the ServerHello, if one was captured.
    pub fn server_hello(&self) -> (r: Option<Vec<u8>>)
        ensures
            self@.server_hello.get() == (match r {
                Some(data) => Some(data@),
                None => None,
            }),
    {
        read_bytes(&self.server_hello)
    }

    /// The body of the EncryptedExtensions, if they were captured.
    pub fn encrypted_extensions(&self) -> (r: Option<Vec<u8>>)
        ensures
            self@.encrypted_extensions.get() == (match r {
                Some(data) => Some(data@),
                None => None,
            }),
    {
        read_bytes(&self.encrypted_extensions)
    }

    /// The DER encodings of the chain, if one was captured.
    pub fn captured_chain_der(&self) -> (r: Option<Vec<Vec<u8>>>)
        ensures
            self@.captured_chain_der.get() == (match r {
                Some(list) => Some(contents(list@)),
                None => None,
            }),
    {
        match &self.captured_chain_der {
            Slot::Held(list) => Some(copy_der_list(list)),
            _ => None,
        }
    }
}

/// A ServerHello that came in can be read back, without its header, whatever
/// was captured before.
pub proof fn law_server_hello_is_read_back(before: Captured, body: Seq<u8>, header: Seq<u8>)
    requires
        before.server_hello !is Closed,
        header.len() == 4,
        header[0] == SERVER_HELLO,
        body.len() > 0,
    ensures
        before.after_message(0, CONTENT_TYPE_HANDSHAKE, header + body).server_hello.get() == Some(
            body,
        ),
{
    assert((header + body).skip(4) =~= body);
}

/// EncryptedExtensions that came in can be read back, without their header,
/// whatever was captured before.
pub proof fn law_encrypted_extensions_are_read_back(
    before: Captured,
    body: Seq<u8>,
    header: Seq<u8>,
)
    requires
        before.encrypted_extensions !is Closed,
        header.len() == 4,
        header[0] == ENCRYPTED_EXTENSIONS,
        body.len() > 0,
    ensures
        before.after_message(
            0,
            CONTENT_TYPE_HANDSHAKE,
            header + body,
        ).encrypted_extensions.get() == Some(body),
{
    assert((header + body).skip(4) =~= body);
}

/// Messages that the client sent, records of another type and messages that
/// are too short leave the capture as it was.
pub proof fn law_only_received_handshake_messages_are_captured(
    before: Captured,
    is_write: i32,
    content_type: i32,
    data: Seq<u8>,
)
    requires
        is_write != 0 || content_type != CONTENT_TYPE_HANDSHAKE || data.len() < 4,
    ensures
        before.after_message(is_write, content_type, data) == before,
{
}

/// A message never touches the captured chain, and the chain never touches
/// what was captured of messages; so the order of the two does not matter.
pub proof fn law_messages_and_chain_do_not_interfere(
    before: Captured,
    is_write: i32,
    content_type: i32,
    data: Seq<u8>,
    chain: Option<Seq<Certificate>>,
)
    ensures
        before.after_message(is_write, content_type, data).captured_chain_der
            == before.captured_chain_der,
        before.after_chain(chain).server_hello == before.server_hello,
        before.after_chain(chain).encrypted_extensions == before.encrypted_extensions,
        before.after_message(is_write, content_type, data).after_chain(chain)
            == before.after_chain(chain).after_message(is_write, content_type, data),
{
}

/// Of two messages of the same type the later one is kept.
pub proof fn law_later_message_of_a_type_wins(before: Captured, first: Seq<u8>, second: Seq<u8>)
    requires
        first.len() >= 4,
        second.len() >= 4,
        first[0] == second[0],
    ensures
        before.after_message(0, CONTENT_TYPE_HANDSHAKE, first).after_message(
            0,
            CONTENT_TYPE_HANDSHAKE,
            second,
        ) == before.after_message(0, CONTENT_TYPE_HANDSHAKE, second),
{
}

/// A chain of which at least one certificate can be encoded is captured,
/// whatever was captured before.
pub proof fn law_presented_chain_is_captured(before: Captured, chain: Seq<Certificate>, i: int)
    requires
        before.captured_chain_der !is Closed,
        0 <= i < chain.len(),
        chain[i]@ is Some,
    ensures
        encodings(chain).len() > 0,
        before.after_chain(Some(chain)).captured_chain_der.get() == Some(encodings(chain)),
{
    lemma_encodable_certificate_counts(chain, i);
}

proof fn lemma_encodable_certificate_counts(chain: Seq<Certificate>, i: int)
    requires
        0 <= i < chain.len(),
        chain[i]@ is Some,
    ensures
        encodings(chain).len() > 0,
    decreases chain.len(),
{
    if i < chain.len() - 1 {
        lemma_encodable_certificate_counts(chain.drop_last(), i);
    }
}

/// What is captured of a chain whose certificates can all be encoded is the
/// whole chain, in order.
pub proof fn law_encodable_chain_is_captured_whole(chain: Seq<Certificate>)
    requires
        forall|i: int| 0 <= i < chain.len() ==> (#[trigger] chain[i])@ is Some,
    ensures
        encodings(chain).len() == chain.len(),
        forall|i: int| 0 <= i < chain.len() ==> chain[i]@ == Some(#[trigger] encodings(chain)[i]),
    decreases chain.len(),
{
    if chain.len() > 0 {
        let shorter = chain.drop_last();
        assert forall|i: int| 0 <= i < shorter.len() implies (#[trigger] shorter[i])@ is Some by {
            assert(shorter[i] == chain[i]);
        }
        law_encodable_chain_is_captured_whole(shorter);
        assert(chain.last()@ is Some);
        assert forall|i: int| 0 <= i < chain.len() implies chain[i]@ == Some(
            #[trigger] encodings(chain)[i],
        ) by {
            if i < shorter.len() {
                assert(encodings(chain)[i] == encodings(shorter)[i]);
                assert(shorter[i] == chain[i]);
            }
        }
    }
}

/// Only ServerHello, type 2, and EncryptedExtensions, type 8, are captured: every other
/// message leaves the capture as it was.
pub proof fn law_other_messages_are_not_captured(
    before: Captured,
    is_write: i32,
    content_type: i32,
    data: Seq<u8>,
)
    requires
        data.len() > 0 ==> data[0] != 2 && data[0] != 8,
    ensures
        before.after_message(is_write, content_type, data) == before,
{
}

/// A message is captured in the place of its own type only: a ServerHello never touches
/// the EncryptedExtensions, nor the other way round.
pub proof fn law_each_message_has_its_own_place(
    before: Captured,
    is_write: i32,
    content_type: i32,
    data: Seq<u8>,
)
    ensures
        data.len() > 0 && data[0] != 2 ==> before.after_message(
            is_write,
            content_type,
            data,
        ).server_hello == before.server_hello,
        data.len() > 0 && data[0] != 8 ==> before.after_message(
            is_write,
            content_type,
            data,
        ).encrypted_extensions == before.encrypted_extensions,
        before.after_message(is_write, content_type, data).captured_chain_der
            == before.captured_chain_der,
{
}

/// A handshake message that comes in is read back in the place of its type: what follows
/// its four header bytes, to the last byte, or the header itself if nothing follows it.
/// Records of handshake messages have type 22.
pub proof fn law_received_message_is_read_back(before: Captured, header: Seq<u8>, body: Seq<u8>)
    requires
        header.len() == 4,
    ensures
        ({
            let after = before.after_message(0, 22, header + body);
            let shown = if body.len() > 0 {
                body
            } else {
                header
            };
            &&& header[0] == 2 && before.server_hello !is Closed ==> after.server_hello.get()
                == Some(shown)
            &&& header[0] == 8 && before.encrypted_extensions !is Closed
                ==> after.encrypted_extensions.get() == Some(shown)
        }),
{
    assert((header + body).skip(4) =~= body);
    if body.len() == 0 {
        assert(header + body =~= header);
    }
}

/// Messages that were sent, records of another type than 22 and messages of less than
/// four bytes are never captured.
pub proof fn law_what_is_not_a_received_handshake_is_not_captured(
    before: Captured,
    is_write: i32,
    content_type: i32,
    data: Seq<u8>,
)
    requires
        is_write != 0 || content_type != 22 || data.len() < 4,
    ensures
        before.after_message(is_write, content_type, data) == before,
        !is_received_handshake(is_write, content_type, data.len()),
{
}

/// A message is worth looking into exactly if it can be captured: one that comes in as a
/// handshake record with at least a header is.
pub proof fn law_received_handshakes_are_looked_into(len: nat)
    requires
        len >= 4,
    ensures
        is_received_handshake(0, 22, len),
{
}

/// What is put into a place is what is read there next, unless the place is closed: then
/// nothing is ever read there. Before anything is put there, nothing is read.
pub proof fn law_places_give_back_what_was_put<T>(slot: Slot<T>, value: T)
    ensures
        slot !is Closed ==> slot.put(value).get() == Some(value),
        slot is Closed ==> slot.put(value) is Closed,
        slot.put(value) is Closed <==> slot is Closed,
        slot is Closed || slot is Empty ==> slot.get() is None,
        slot matches Slot::Held(held) ==> slot.get() == Some(held),
{
}

/// A closed place stays closed, and one that is not closed is never closed, whatever
/// messages and chains come in.
pub proof fn law_places_stay_open_or_closed(
    before: Captured,
    is_write: i32,
    content_type: i32,
    data: Seq<u8>,
    chain: Option<Seq<Certificate>>,
)
    ensures
        ({
            let message = before.after_message(is_write, content_type, data);
            let after = message.after_chain(chain);
            &&& after.server_hello is Closed <==> before.server_hello is Closed
            &&& after.encrypted_extensions is Closed <==> before.encrypted_extensions is Closed
            &&& after.captured_chain_der is Closed <==> before.captured_chain_der is Closed
        }),
{
}

/// A capture shows what it holds, byte for byte and place by place.
pub proof fn law_capture_shows_what_it_holds(capture: HandshakeCapture)
    ensures
        capture@.server_hello is Closed <==> capture.server_hello is Closed,
        capture@.encrypted_extensions is Closed <==> capture.encrypted_extensions is Closed,
        capture@.captured_chain_der is Closed <==> capture.captured_chain_der is Closed,
        capture@.server_hello.get() == (match capture.server_hello {
            Slot::Held(data) => Some(data@),
            _ => None,
        }),
        capture@.encrypted_extensions.get() == (match capture.encrypted_extensions {
            Slot::Held(data) => Some(data@),
            _ => None,
        }),
        capture@.captured_chain_der.get() is Some <==> capture.captured_chain_der is Held,
        capture.captured_chain_der matches Slot::Held(list) ==> {
            let shown = capture@.captured_chain_der.get()->0;
            &&& shown.len() == list@.len()
            &&& forall|i: int| 0 <= i < list@.len() ==> #[trigger] shown[i] == list@[i]@
        },
{
}

/// What is captured of a chain is captured certificate by certificate, in order: of one
/// certificate its encoding if it has one, and of two chains in a row what is captured
/// of the first, then what is captured of the second.
pub proof fn law_chains_are_captured_certificate_by_certificate(
    certificate: Certificate,
    first: Seq<Certificate>,
    second: Seq<Certificate>,
)
    ensures
        encodings(seq![certificate]) == (match certificate.der {
            Some(der) => seq![der@],
            None => Seq::empty(),
        }),
        encodings(first + second) == encodings(first) + encodings(second),
    decreases second.len(),
{
    let one = seq![certificate];
    reveal_with_fuel(encodings, 2);
    assert(one.last() == certificate);
    assert(one.drop_last() =~= Seq::empty());
    assert(encodings(one) =~= (match certificate.der {
        Some(der) => seq![der@],
        None => Seq::empty(),
    }));
    if second.len() == 0 {
        assert(first + second =~= first);
        assert(encodings(first) + encodings(second) =~= encodings(first));
    } else {
        law_chains_are_captured_certificate_by_certificate(certificate, first, second.drop_last());
        assert((first + second).drop_last() =~= first + second.drop_last());
        assert((first + second).last() == second.last());
        assert(encodings(first + second) =~= encodings(first) + encodings(second));
    }
}

/// A chain that the peer presents replaces the one before if it has a certificate that
/// can be encoded; if it has none, or no chain is presented, the one before stays.
pub proof fn law_chain_is_captured_exactly_if_it_shows_something(
    before: Captured,
    chain: Option<Seq<Certificate>>,
)
    ensures
        ({
            let after = before.after_chain(chain);
            let shows = chain matches Some(list) && exists|i: int|
                0 <= i < list.len() && (#[trigger] list[i]).der is Some;
            &&& shows && before.captured_chain_der !is Closed ==> after.captured_chain_der.get()
                == Some(encodings(chain->0))
            &&& !shows ==> after == before
            &&& after.server_hello == before.server_hello
            &&& after.encrypted_extensions == before.encrypted_extensions
        }),
{
    if let Some(list) = chain {
        if exists|i: int| 0 <= i < list.len() && (#[trigger] list[i]).der is Some {
            let i = choose|i: int| 0 <= i < list.len() && (#[trigger] list[i]).der is Some;
            lemma_encodable_certificate_counts(list, i);
        } else {
            lemma_nothing_to_encode(list);
        }
    }
}

proof fn lemma_nothing_to_encode(chain: Seq<Certificate>)
    requires
        forall|i: int| 0 <= i < chain.len() ==> (#[trigger] chain[i]).der is None,
    ensures
        encodings(chain).len() == 0,
    decreases chain.len(),
{
    if chain.len() > 0 {
        assert(chain[chain.len() - 1].der is None);
        lemma_nothing_to_encode(chain.drop_last());
    }
}

} // verus!
