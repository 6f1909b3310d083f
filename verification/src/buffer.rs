//! The growable byte buffer of the `bytes` crate, as the event encoders and
//! the frame decoder use it.

use bytes::BytesMut;
use vstd::prelude::*;

verus! {

#[verifier::external_type_specification]
#[verifier::external_body]
pub struct ExBytesMut(BytesMut);

/// The bytes that a `BytesMut` holds, in order.
pub uninterp spec fn bytes_of(b: BytesMut) -> Seq<u8>;

/// Calls `BytesMut::new`; claims that the new buffer is empty.
#[verifier::external_body]
pub(crate) fn bytes_new() -> (r: BytesMut)
    ensures
        bytes_of(r) == Seq::<u8>::empty(),
{
    BytesMut::new()
}

/// Calls `BytesMut::extend_from_slice`; claims that it appends `s`.
#[verifier::external_body]
pub(crate) fn bytes_extend(b: &mut BytesMut, s: &[u8])
    ensures
        bytes_of(*final(b)) == bytes_of(*old(b)) + s@,
{
    b.extend_from_slice(s)
}

/// Calls `BytesMut::advance`; claims that it drops the first `cnt` bytes.
#[verifier::external_body]
pub(crate) fn bytes_advance(b: &mut BytesMut, cnt: usize)
    requires
        cnt <= bytes_of(*old(b)).len(),
    ensures
        bytes_of(*final(b)) == bytes_of(*old(b)).subrange(cnt as int, bytes_of(*old(b)).len() as int),
{
    b.advance(cnt)
}

/// Copies the bytes held out of the buffer, through its `AsRef<[u8]>`
/// (`as_ref`, then `to_vec`); claims that the copy holds them in order.
#[verifier::external_body]
pub(crate) fn bytes_to_vec(b: &BytesMut) -> (r: Vec<u8>)
    ensures
        r@ == bytes_of(*b),
{
    AsRef::<[u8]>::as_ref(b).to_vec()
}

} // verus!
