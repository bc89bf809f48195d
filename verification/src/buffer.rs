//! The byte buffer that encoded lines are appended to.

use vstd::prelude::*;

verus! {

#[verifier::external_type_specification]
#[verifier::external_body]
pub struct ExBytesMut(bytes::BytesMut);

/// The bytes that a buffer holds, first to last.
pub uninterp spec fn buffer_bytes(buffer: bytes::BytesMut) -> Seq<u8>;

/// `bytes::BytesMut::extend_from_slice`: the buffer keeps what it held and
/// gains a copy of `data` at its end.
#[verifier::external_body]
pub(crate) fn append_bytes(buffer: &mut bytes::BytesMut, data: &[u8])
    ensures
        buffer_bytes(*final(buffer)) == buffer_bytes(*old(buffer)) + data@,
{
    buffer.extend_from_slice(data)
}

} // verus!
