//! The buffers that carry a rewritten packet to the sending side: a plain copy for the
//! channel, or a frame that leaves room for the virtio-net header in front when the
//! device offloads segmentation. They are `bytes::BytesMut`, as the device expects.
use vstd::prelude::*;
use bytes::BytesMut;

verus! {

#[verifier::external_type_specification]
#[verifier::external_body]
pub struct ExBytesMut(bytes::BytesMut);

/// The bytes that a `BytesMut` holds.
pub uninterp spec fn bytes_mut_contents(b: BytesMut) -> Seq<u8>;

/// Calls `BytesMut::with_capacity`.
///
/// Trusted: the new buffer holds no bytes (its documentation: "does not specify the
/// length ... but only the capacity", and its example shows a length of 0). The
/// capacity, which an allocator decides, is not stated.
#[verifier::external_body]
fn bytes_with_capacity(capacity: usize) -> (b: BytesMut)
    requires
        capacity <= isize::MAX,
    ensures
        bytes_mut_contents(b) == Seq::<u8>::empty(),
{
    BytesMut::with_capacity(capacity)
}

/// Calls `BytesMut::extend_from_slice`.
///
/// Trusted: the buffer afterwards holds what it held, followed by `data`. The sum of
/// the lengths stays within `isize::MAX`, beyond which the underlying reservation panics.
#[verifier::external_body]
fn bytes_extend(b: &mut BytesMut, data: &[u8])
    requires
        bytes_mut_contents(*old(b)).len() + data@.len() <= isize::MAX,
    ensures
        bytes_mut_contents(*final(b)) == bytes_mut_contents(*old(b)) + data@,
{
    b.extend_from_slice(data)
}

/// Calls `BytesMut::resize`.
///
/// Trusted: as documented, the buffer is cut to `new_len` bytes when it is longer, and
/// otherwise extended to `new_len` bytes, each added byte being `value`.
#[verifier::external_body]
fn bytes_resize(b: &mut BytesMut, new_len: usize, value: u8)
    requires
        new_len <= isize::MAX,
    ensures
        bytes_mut_contents(*final(b)) == if new_len <= bytes_mut_contents(*old(b)).len() {
            bytes_mut_contents(*old(b)).take(new_len as int)
        } else {
            bytes_mut_contents(*old(b)) + Seq::new(
                (new_len - bytes_mut_contents(*old(b)).len()) as nat,
                |i: int| value,
            )
        },
{
    b.resize(new_len, value)
}

/// Calls `BytesMut::truncate`.
///
/// Trusted: as documented, the buffer keeps its first `len` bytes; when it holds no more
/// than `len`, it is left as it was.
#[verifier::external_body]
fn bytes_truncate(b: &mut BytesMut, len: usize)
    ensures
        bytes_mut_contents(*final(b)) == if len <= bytes_mut_contents(*old(b)).len() {
            bytes_mut_contents(*old(b)).take(len as int)
        } else {
            bytes_mut_contents(*old(b))
        },
{
    b.truncate(len)
}

/// `n` zero bytes.
pub open spec fn zeros(n: nat) -> Seq<u8> {
    Seq::new(n, |i: int| 0u8)
}

/// A buffer of its own, reserved for `capacity` bytes, holding a copy of `packet`.
pub fn packet_buffer(packet: &[u8], capacity: usize) -> (b: BytesMut)
    requires
        capacity <= isize::MAX,
        packet@.len() <= isize::MAX,
    ensures
        bytes_mut_contents(b) == packet@,
{
    let mut b = bytes_with_capacity(capacity);
    bytes_extend(&mut b, packet);
    assert(bytes_mut_contents(b) =~= packet@);
    b
}

/// A frame for a device that offloads segmentation, reserved for `capacity` bytes:
/// `header_len` zero bytes where the virtio-net header goes, then `packet`.
pub fn offload_frame(header_len: usize, packet: &[u8], capacity: usize) -> (b: BytesMut)
    requires
        capacity <= isize::MAX,
        header_len + packet@.len() <= isize::MAX,
    ensures
        bytes_mut_contents(b) == zeros(header_len as nat) + packet@,
{
    let mut b = bytes_with_capacity(capacity);
    bytes_resize(&mut b, header_len, 0);
    assert(bytes_mut_contents(b) =~= zeros(header_len as nat));
    bytes_extend(&mut b, packet);
    b
}

/// Reuses a frame for the next packet: its first `header_len` bytes stay (all of it when
/// it is no longer), and `packet` takes the place of what followed them.
pub fn refill_frame(frame: &mut BytesMut, header_len: usize, packet: &[u8])
    requires
        header_len + packet@.len() <= isize::MAX,
    ensures
        bytes_mut_contents(*final(frame)) == (if header_len <= bytes_mut_contents(
            *old(frame),
        ).len() {
            bytes_mut_contents(*old(frame)).take(header_len as int)
        } else {
            bytes_mut_contents(*old(frame))
        }) + packet@,
{
    bytes_truncate(frame, header_len);
    bytes_extend(frame, packet);
}

} // verus!
