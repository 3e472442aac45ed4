use vstd::prelude::*;
use actix_web::http::header::HeaderValue;
use actix_web::http::header::InvalidHeaderValue;
use bytes::BytesMut;

verus! {

#[verifier::external_type_specification]
#[verifier::external_body]
pub struct ExBytesMut(BytesMut);

#[verifier::external_type_specification]
#[verifier::external_body]
pub struct ExHeaderValue(HeaderValue);

#[verifier::external_type_specification]
#[verifier::external_body]
pub struct ExInvalidHeaderValue(InvalidHeaderValue);

/// The bytes a buffer holds, in order.
pub uninterp spec fn buffer_bytes(buffer: BytesMut) -> Seq<u8>;

/// The bytes of a header value, in order.
pub uninterp spec fn header_bytes(value: HeaderValue) -> Seq<u8>;

/// The bytes that may stand in a header value: a horizontal tab, and
/// everything from the space upwards but for DEL.
pub open spec fn header_byte_ok(b: u8) -> bool {
    b >= 32 && b != 127 || b == 9
}

/// Whether every byte of `bytes` may stand in a header value.
pub open spec fn header_bytes_ok(bytes: Seq<u8>) -> bool {
    forall|i: int| 0 <= i < bytes.len() ==> header_byte_ok(#[trigger] bytes[i])
}

/// `BytesMut::with_capacity`: an empty buffer. The capacity is handed to
/// `Vec::with_capacity`, which panics above `isize::MAX`.
#[verifier::external_body]
pub(crate) fn buffer_with_capacity(capacity: usize) -> (r: BytesMut)
    requires
        capacity <= isize::MAX,
    ensures
        buffer_bytes(r) == Seq::<u8>::empty(),
{
    BytesMut::with_capacity(capacity)
}

/// `BytesMut::extend_from_slice`: appends `data`. It reserves room first,
/// which panics where the new length cannot be allocated.
#[verifier::external_body]
pub(crate) fn buffer_extend(buffer: &mut BytesMut, data: &[u8])
    requires
        buffer_bytes(*old(buffer)).len() + data@.len() <= isize::MAX,
    ensures
        buffer_bytes(*final(buffer)) == buffer_bytes(*old(buffer)) + data@,
{
    buffer.extend_from_slice(data)
}

/// `BytesMut::reserve`: makes room for `additional` more bytes. What is held
/// stays. It panics where the room cannot be allocated.
#[verifier::external_body]
pub(crate) fn buffer_reserve(buffer: &mut BytesMut, additional: usize)
    requires
        buffer_bytes(*old(buffer)).len() + additional <= isize::MAX,
    ensures
        buffer_bytes(*final(buffer)) == buffer_bytes(*old(buffer)),
{
    buffer.reserve(additional)
}

/// `BytesMut::clear`: removes every byte.
#[verifier::external_body]
pub(crate) fn buffer_clear(buffer: &mut BytesMut)
    ensures
        buffer_bytes(*final(buffer)) == Seq::<u8>::empty(),
{
    buffer.clear()
}

/// `BytesMut::as_ref`: the bytes held, as a slice.
#[verifier::external_body]
pub(crate) fn buffer_as_slice(buffer: &BytesMut) -> (r: &[u8])
    ensures
        r@ == buffer_bytes(*buffer),
{
    buffer.as_ref()
}

/// `BytesMut::len`: the number of bytes held.
#[verifier::external_body]
pub(crate) fn buffer_len(buffer: &BytesMut) -> (r: usize)
    ensures
        r == buffer_bytes(*buffer).len(),
{
    buffer.len()
}

/// `HeaderValue::from_maybe_shared` on the frozen buffer: succeeds exactly
/// when every byte may stand in a header value, and then holds those bytes.
#[verifier::external_body]
pub(crate) fn header_from_buffer(buffer: BytesMut) -> (r: Result<HeaderValue, InvalidHeaderValue>)
    ensures
        r is Ok <==> header_bytes_ok(buffer_bytes(buffer)),
        r matches Ok(value) ==> header_bytes(value) == buffer_bytes(buffer),
{
    HeaderValue::from_maybe_shared(buffer.freeze())
}

/// `HeaderValue::clone`: a value with the same bytes.
#[verifier::external_body]
pub(crate) fn header_clone(value: &HeaderValue) -> (r: HeaderValue)
    ensures
        header_bytes(r) == header_bytes(*value),
{
    value.clone()
}

} // verus!
