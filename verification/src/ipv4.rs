//! The fields of an IPv4 header and of a TCP segment that the proxy reads and writes,
//! laid out as `pnet_packet` lays them out, over a packet's bytes.
use vstd::prelude::*;

verus! {

/// The address of the local end of the TUN device.
pub const SRC_IP: [u8; 4] = [10, 0, 1, 2];

/// The first of the two virtual peers.
pub const DST_IP_A: [u8; 4] = [10, 0, 1, 3];

/// The second of the two virtual peers.
pub const DST_IP_B: [u8; 4] = [10, 0, 1, 4];

/// The fixed part of an IPv4 header, in bytes: the shortest buffer taken for a packet.
pub const IPV4_MIN_LEN: usize = 20;

/// The fixed part of a TCP header, in bytes: the shortest payload taken for a segment.
pub const TCP_MIN_LEN: usize = 20;

/// The protocol number of TCP in the IPv4 header.
pub const PROTOCOL_TCP: u8 = 6;

/// Offset of the header checksum in an IPv4 header.
pub const IPV4_CHECKSUM_AT: usize = 10;

/// Offset of the source address in an IPv4 header.
pub const IPV4_SOURCE_AT: usize = 12;

/// Offset of the destination address in an IPv4 header.
pub const IPV4_DESTINATION_AT: usize = 16;

/// Offset of the checksum in a TCP header.
pub const TCP_CHECKSUM_AT: usize = 16;

/// The header length field (low nibble of byte 0), in 32-bit words.
pub open spec fn header_words(p: Seq<u8>) -> int {
    (p[0] % 16) as int
}

/// The total length field (bytes 2 and 3, big endian).
pub open spec fn total_length(p: Seq<u8>) -> int {
    p[2] * 256 + p[3]
}

/// The next-level protocol field (byte 9).
pub open spec fn protocol(p: Seq<u8>) -> u8 {
    p[9]
}

/// The four octets at `at`.
pub open spec fn octets_at(p: Seq<u8>, at: int) -> Seq<u8> {
    p.subrange(at, at + 4)
}

/// The source address.
pub open spec fn source(p: Seq<u8>) -> Seq<u8> {
    octets_at(p, IPV4_SOURCE_AT as int)
}

/// The destination address.
pub open spec fn destination(p: Seq<u8>) -> Seq<u8> {
    octets_at(p, IPV4_DESTINATION_AT as int)
}

/// The big-endian 16-bit value at `at`.
pub open spec fn u16_at(p: Seq<u8>, at: int) -> int {
    p[at] * 256 + p[at + 1]
}

/// Where the payload begins: after the fixed header and the options that the header
/// length announces (never before byte 20).
pub open spec fn payload_start(p: Seq<u8>) -> int {
    if header_words(p) * 4 <= 20 {
        20
    } else {
        header_words(p) * 4
    }
}

/// The payload length that the header announces: total length less header length,
/// or 0 where the header is longer than the total.
pub open spec fn announced_payload_len(p: Seq<u8>) -> int {
    if total_length(p) >= header_words(p) * 4 {
        total_length(p) - header_words(p) * 4
    } else {
        0
    }
}

/// Where the payload ends: as announced, cut at the end of the buffer.
pub open spec fn payload_end(p: Seq<u8>) -> int {
    if payload_start(p) + announced_payload_len(p) <= p.len() {
        payload_start(p) + announced_payload_len(p)
    } else {
        p.len() as int
    }
}

/// The payload of the packet: empty when the buffer ends before it begins.
pub open spec fn payload(p: Seq<u8>) -> Seq<u8> {
    if p.len() <= payload_start(p) {
        Seq::empty()
    } else {
        p.subrange(payload_start(p), payload_end(p))
    }
}

/// `p` with the four octets `a` written at `at`.
pub open spec fn with_octets(p: Seq<u8>, at: int, a: Seq<u8>) -> Seq<u8> {
    p.update(at, a[0]).update(at + 1, a[1]).update(at + 2, a[2]).update(at + 3, a[3])
}

/// `p` with `v` written big endian at `at`.
pub open spec fn with_u16(p: Seq<u8>, at: int, v: u16) -> Seq<u8> {
    p.update(at, (v / 256) as u8).update(at + 1, (v % 256) as u8)
}

/// The payload of a packet is the segment that its header announces: it begins after
/// the header length (low nibble of byte 0, in 32-bit words), never before byte 20, and
/// runs for the big-endian total length (256 * byte 2 + byte 3) less the header length,
/// cut at the end of the buffer; it is empty when the buffer ends before it begins.
pub proof fn lemma_payload_is_announced_segment(p: Seq<u8>)
    requires
        p.len() >= IPV4_MIN_LEN,
    ensures
        ({
            let header = (p[0] % 16) * 4;
            let start = if header <= 20 { 20 } else { header };
            let total = p[2] * 256 + p[3];
            let announced = if total >= header { total - header } else { 0 };
            let end = if start + announced <= p.len() { start + announced } else { p.len() as int };
            &&& payload_start(p) == start
            &&& payload_end(p) == end
            &&& payload(p) == if p.len() <= start { Seq::<u8>::empty() } else { p.subrange(start, end) }
        }),
{
}

/// A packet with the plain 20-byte header whose total length is its buffer's length
/// carries everything after the header as its payload.
pub proof fn lemma_full_packet_payload(p: Seq<u8>)
    requires
        p.len() > IPV4_MIN_LEN,
        p[0] % 16 == 5,
        p[2] * 256 + p[3] == p.len(),
    ensures
        payload(p) == p.subrange(20, p.len() as int),
        payload(p).len() == p.len() - 20,
{
    lemma_payload_is_announced_segment(p);
}

/// Whether the four octets of `buf` at `at` are `a`.
pub fn octets_equal(buf: &[u8], at: usize, a: [u8; 4]) -> (r: bool)
    requires
        at + 4 <= buf@.len(),
    ensures
        r == (octets_at(buf@, at as int) == a@),
{
    let r = buf[at] == a[0] && buf[at + 1] == a[1] && buf[at + 2] == a[2] && buf[at + 3] == a[3];
    proof {
        if r {
            assert(octets_at(buf@, at as int) =~= a@);
        } else {
            if octets_at(buf@, at as int) == a@ {
                assert(octets_at(buf@, at as int)[0] == a@[0]);
                assert(octets_at(buf@, at as int)[1] == a@[1]);
                assert(octets_at(buf@, at as int)[2] == a@[2]);
                assert(octets_at(buf@, at as int)[3] == a@[3]);
            }
        }
    }
    r
}

/// Writes the four octets `a` at `at`.
pub fn set_octets(buf: &mut [u8], at: usize, a: [u8; 4])
    requires
        at + 4 <= old(buf)@.len(),
    ensures
        final(buf)@ == with_octets(old(buf)@, at as int, a@),
{
    buf[at] = a[0];
    buf[at + 1] = a[1];
    buf[at + 2] = a[2];
    buf[at + 3] = a[3];
}

/// Writes `v` big endian at `at`.
pub fn set_u16(buf: &mut [u8], at: usize, v: u16)
    requires
        at + 2 <= old(buf)@.len(),
    ensures
        final(buf)@ == with_u16(old(buf)@, at as int, v),
        u16_at(final(buf)@, at as int) == v,
{
    buf[at] = (v / 256) as u8;
    buf[at + 1] = (v % 256) as u8;
}

/// Where the payload of the packet in `buf` begins and ends, as `payload_start` and
/// `payload_end` say.
pub fn payload_bounds(buf: &[u8]) -> (r: (usize, usize))
    requires
        buf@.len() >= IPV4_MIN_LEN,
    ensures
        r.0 == payload_start(buf@),
        r.1 == payload_end(buf@),
        // The same, read straight off the header bytes: the payload begins after the
        // header length (byte 0, low nibble, in words) but never before byte 20, and
        // runs for the total length (bytes 2 and 3, big endian) less the header length,
        // cut at the end of the buffer.
        r.0 == (if (buf@[0] % 16) * 4 <= 20 { 20 } else { (buf@[0] % 16) * 4 }),
        r.1 == (if r.0 + (if buf@[2] * 256 + buf@[3] >= (buf@[0] % 16) * 4 {
            buf@[2] * 256 + buf@[3] - (buf@[0] % 16) * 4
        } else {
            0
        }) <= buf@.len() {
            r.0 + (if buf@[2] * 256 + buf@[3] >= (buf@[0] % 16) * 4 {
                buf@[2] * 256 + buf@[3] - (buf@[0] % 16) * 4
            } else {
                0
            })
        } else {
            buf@.len() as int
        }),
        20 <= r.0 <= 60,
        r.1 <= buf@.len(),
        r.1 - r.0 <= 65535,
{
    let b0 = buf[0];
    let words = (b0 & 0x0f) as usize;
    assert(b0 & 0x0f == b0 % 16) by (bit_vector);
    let header_len = words * 4;
    let total = (buf[2] as usize) * 256 + (buf[3] as usize);
    let start = if header_len <= 20 { 20 } else { header_len };
    let announced = if total >= header_len { total - header_len } else { 0 };
    let end = if start + announced <= buf.len() { start + announced } else { buf.len() };
    (start, end)
}

} // verus!
