//! Shared byte buffers, as `bytes::Bytes` keeps them, and shared values.

use bytes::Bytes;
use std::sync::Arc;
use vstd::prelude::*;

verus! {

/// Declares `bytes::Bytes`, of which only its [`octets`] are known.
#[verifier::external_type_specification]
#[verifier::external_body]
pub struct ExBytes(Bytes);

/// The bytes that a buffer holds.
pub uninterp spec fn octets(buffer: Bytes) -> Seq<u8>;

/// The bytes that each buffer of a list holds.
pub open spec fn all_octets(buffers: Seq<Bytes>) -> Seq<Seq<u8>> {
    buffers.map_values(|buffer: Bytes| octets(buffer))
}

/// Calls `<Bytes as From<Vec<u8>>>::from`: the buffer takes over the vector and
/// holds the same bytes.
#[verifier::external_body]
pub(crate) fn to_bytes(data: Vec<u8>) -> (r: Bytes)
    ensures
        octets(r) == data@,
{
    Bytes::from(data)
}

/// Calls `<Bytes as Clone>::clone`: the second handle shows the same bytes.
#[verifier::external_body]
pub(crate) fn copy_bytes(buffer: &Bytes) -> (r: Bytes)
    ensures
        octets(r) == octets(*buffer),
{
    buffer.clone()
}

/// Calls `<Bytes as AsRef<[u8]>>::as_ref`: the slice is what the buffer holds.
#[verifier::external_body]
pub(crate) fn bytes_as_slice(buffer: &Bytes) -> (r: &[u8])
    ensures
        r@ == octets(*buffer),
{
    buffer.as_ref()
}

/// Calls `<Arc<T> as Clone>::clone`: the second handle points to the same value.
#[verifier::external_body]
pub(crate) fn share<T>(value: &Arc<T>) -> (r: Arc<T>)
    ensures
        r == *value,
{
    Arc::clone(value)
}

/// Turns each vector into a buffer.
pub(crate) fn to_bytes_list(list: Vec<Vec<u8>>) -> (r: Vec<Bytes>)
    ensures
        all_octets(r@) == list@.map_values(|data: Vec<u8>| data@),
{
    let mut out: Vec<Bytes> = Vec::new();
    let mut rest = list;
    let ghost all = list@;
    while rest.len() > 0
        invariant
            rest@.len() + out@.len() == all.len(),
            rest@ == all.skip(out@.len() as int),
            all_octets(out@) == all.take(out@.len() as int).map_values(|data: Vec<u8>| data@),
        decreases rest@.len(),
    {
        let ghost before = out@;
        let ghost left = rest@;
        let data = rest.remove(0);
        out.push(to_bytes(data));
        proof {
            assert(data == all[before.len() as int]);
            assert(rest@ =~= left.drop_first());
            assert(all_octets(out@) =~= all_octets(before).push(data@));
            assert(all.take(out@.len() as int) =~= all.take(before.len() as int).push(data));
            assert(all.take(out@.len() as int).map_values(|data: Vec<u8>| data@) =~= all.take(
                before.len() as int,
            ).map_values(|data: Vec<u8>| data@).push(data@));
        }
    }
    assert(all.take(out@.len() as int) =~= all);
    out
}

/// Copies a list of buffers.
pub(crate) fn copy_bytes_list(list: &Vec<Bytes>) -> (r: Vec<Bytes>)
    ensures
        all_octets(r@) == all_octets(list@),
{
    let mut out: Vec<Bytes> = Vec::new();
    let mut i: usize = 0;
    while i < list.len()
        invariant
            i <= list@.len(),
            out@.len() == i,
            forall|j: int| 0 <= j < i ==> octets(#[trigger] out@[j]) == octets(list@[j]),
        decreases list@.len() - i,
    {
        out.push(copy_bytes(&list[i]));
        i += 1;
    }
    assert(all_octets(out@) =~= all_octets(list@));
    out
}

} // verus!
