//! Application protocol names and their wire format.

use vstd::prelude::*;

verus! {

/// A protocol name offered through ALPN (application-layer protocol
/// negotiation), such as `h2`.
///
/// A name is at most 255 bytes long: its length travels in a single byte.
#[derive(Clone, Copy, Debug)]
pub struct AlpnProtocol(&'static [u8]);

/// A protocol name offered through ALPS (application-layer protocol settings).
#[derive(Clone, Copy, Debug)]
pub struct AlpsProtocol(pub &'static [u8]);

impl View for AlpnProtocol {
    type V = Seq<u8>;

    closed spec fn view(&self) -> Seq<u8> {
        self.0@
    }
}

impl View for AlpsProtocol {
    type V = Seq<u8>;

    open spec fn view(&self) -> Seq<u8> {
        self.0@
    }
}

/// One name on the wire: its length in one byte, then its bytes.
pub open spec fn wire_name(name: Seq<u8>) -> Seq<u8> {
    seq![name.len() as u8] + name
}

/// A list of names on the wire: the names one after the other.
pub open spec fn wire_names(names: Seq<AlpnProtocol>) -> Seq<u8>
    decreases names.len(),
{
    if names.len() == 0 {
        Seq::empty()
    } else {
        wire_name(names.first()@) + wire_names(names.drop_first())
    }
}

impl AlpnProtocol {
    #[verifier::type_invariant]
    spec fn fits_length_byte(self) -> bool {
        self.0@.len() <= 255
    }

    /// Makes a protocol name, or `None` if it is longer than 255 bytes.
    pub fn new(value: &'static [u8]) -> (r: Option<AlpnProtocol>)
        ensures
            r is Some <==> value@.len() <= 255,
            r matches Some(p) ==> p@ == value@,
    {
        if value.len() <= 255 {
            Some(AlpnProtocol(value))
        } else {
            None
        }
    }

    /// The name in wire format.
    pub fn encode(self) -> (r: Vec<u8>)
        ensures
            r@ == wire_name(self@),
            self@.len() <= 255,
    {
        let mut out: Vec<u8> = Vec::new();
        self.put(&mut out);
        out
    }

    /// The names in wire format, in the order given.
    pub fn encode_sequence(items: &[AlpnProtocol]) -> (r: Vec<u8>)
        ensures
            r@ == wire_names(items@),
    {
        let mut out: Vec<u8> = Vec::new();
        let mut i: usize = 0;
        assert(items@.skip(0) == items@);
        while i < items.len()
            invariant
                i <= items@.len(),
                out@ + wire_names(items@.skip(i as int)) == wire_names(items@),
            decreases items@.len() - i,
        {
            let ghost rest = items@.skip(i as int);
            let ghost before = out@;
            items[i].put(&mut out);
            i += 1;
            proof {
                assert(rest.first() == items@[i - 1]);
                assert(rest.drop_first() == items@.skip(i as int));
                assert(before + wire_names(rest) == out@ + wire_names(items@.skip(i as int)));
            }
        }
        assert(items@.skip(i as int).len() == 0);
        out
    }

    fn put(self, out: &mut Vec<u8>)
        ensures
            final(out)@ == old(out)@ + wire_name(self@),
            self@.len() <= 255,
    {
        proof {
            use_type_invariant(&self);
        }
        out.push(self.0.len() as u8);
        out.extend_from_slice(self.0);
        assert(out@ =~= old(out)@ + wire_name(self@));
    }
}

/// What a peer reads in a list of names on the wire: each name takes as many bytes as
/// the byte before it says, and the last one ends where the list does; `None` if a name
/// is cut short.
pub open spec fn read_names(wire: Seq<u8>) -> Option<Seq<Seq<u8>>>
    decreases wire.len(),
{
    if wire.len() == 0 {
        Some(Seq::empty())
    } else {
        let end = 1 + wire[0] as int;
        if end > wire.len() {
            None
        } else {
            match read_names(wire.skip(end)) {
                Some(rest) => Some(seq![wire.subrange(1, end)] + rest),
                None => None,
            }
        }
    }
}

/// The bytes of each name of a list.
pub open spec fn names_of(list: Seq<AlpnProtocol>) -> Seq<Seq<u8>> {
    Seq::new(list.len(), |i: int| list[i]@)
}

/// A peer reads exactly the names that were encoded, in their order and to their last
/// byte.
pub proof fn law_encoded_names_are_read_back(names: Seq<AlpnProtocol>)
    requires
        forall|i: int| 0 <= i < names.len() ==> (#[trigger] names[i])@.len() <= 255,
    ensures
        read_names(wire_names(names)) matches Some(read) && read.len() == names.len() && forall|
            i: int,
        |
            0 <= i < names.len() ==> #[trigger] read[i] == names[i]@,
    decreases names.len(),
{
    if names.len() > 0 {
        let name = names.first()@;
        let rest = names.drop_first();
        let wire = wire_names(names);
        assert forall|i: int| 0 <= i < rest.len() implies (#[trigger] rest[i])@.len() <= 255 by {
            assert(rest[i] == names[i + 1]);
        }
        law_encoded_names_are_read_back(rest);
        assert(wire[0] as int == name.len());
        assert(wire.subrange(1, 1 + name.len() as int) =~= name);
        assert(wire.skip(1 + name.len() as int) =~= wire_names(rest));
        let read = read_names(wire)->0;
        let later = read_names(wire_names(rest))->0;
        assert(read =~= seq![name] + later);
        assert forall|i: int| 0 <= i < names.len() implies #[trigger] read[i] == names[i]@ by {
            if i > 0 {
                assert(read[i] == later[i - 1]);
                assert(names[i] == rest[i - 1]);
            }
        }
    }
}

/// A peer reads exactly the one name that was encoded, to its last byte.
pub proof fn law_encoded_name_is_read_back(name: AlpnProtocol)
    requires
        name@.len() <= 255,
    ensures
        read_names(wire_name(name@)) == Some(seq![name@]),
{
    let names = seq![name];
    law_single_name_encodes_as_a_list(name);
    law_encoded_names_are_read_back(names);
    assert(names[0] == name);
    assert(read_names(wire_name(name@))->0 =~= seq![name@]);
}

/// Encoding one name is encoding the list that holds it alone.
pub proof fn law_single_name_encodes_as_a_list(name: AlpnProtocol)
    ensures
        wire_names(seq![name]) == wire_name(name@),
{
    reveal_with_fuel(wire_names, 2);
    assert(seq![name].drop_first() =~= Seq::empty());
    assert(wire_names(seq![name]) =~= wire_name(name@));
}

/// The wire format loses nothing: two lists of names that fit their length
/// byte and look alike on the wire hold the same names in the same order.
pub proof fn law_wire_names_are_unambiguous(a: Seq<AlpnProtocol>, b: Seq<AlpnProtocol>)
    requires
        forall|i: int| 0 <= i < a.len() ==> (#[trigger] a[i])@.len() <= 255,
        forall|i: int| 0 <= i < b.len() ==> (#[trigger] b[i])@.len() <= 255,
        wire_names(a) == wire_names(b),
    ensures
        a.len() == b.len(),
        forall|i: int| 0 <= i < a.len() ==> (#[trigger] a[i])@ == b[i]@,
    decreases a.len(),
{
    if a.len() > 0 && b.len() > 0 {
        let x = a.first()@;
        let y = b.first()@;
        assert(wire_names(a)[0] == x.len() as u8);
        assert(wire_names(b)[0] == y.len() as u8);
        assert(wire_names(a).subrange(1, 1 + x.len() as int) =~= x);
        assert(wire_names(b).subrange(1, 1 + y.len() as int) =~= y);
        assert(wire_names(a).skip(1 + x.len() as int) =~= wire_names(a.drop_first()));
        assert(wire_names(b).skip(1 + y.len() as int) =~= wire_names(b.drop_first()));
        law_wire_names_are_unambiguous(a.drop_first(), b.drop_first());
        assert forall|i: int| 0 <= i < a.len() implies (#[trigger] a[i])@ == b[i]@ by {
            if i > 0 {
                assert(a[i] == a.drop_first()[i - 1]);
                assert(b[i] == b.drop_first()[i - 1]);
            }
        }
    }
}

} // verus!
