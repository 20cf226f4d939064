//! The two checksums that the proxy recomputes, delegated to `pnet_packet`.
use vstd::prelude::*;

verus! {

/// What `pnet_packet::ipv4::checksum` returns for an IPv4 packet whose bytes are `packet`.
pub uninterp spec fn pnet_ipv4_checksum(packet: Seq<u8>) -> u16;

/// What `pnet_packet::tcp::ipv4_checksum` returns for a TCP segment whose bytes are
/// `segment`, carried in an IPv4 packet from `source` to `destination` (four octets each).
pub uninterp spec fn pnet_tcp_ipv4_checksum(segment: Seq<u8>, source: Seq<u8>, destination: Seq<u8>) -> u16;

/// `packet` and `other` have the same length and agree everywhere but at `at` and `at + 1`.
pub open spec fn agree_except_word(packet: Seq<u8>, other: Seq<u8>, at: int) -> bool {
    &&& packet.len() == other.len()
    &&& forall|i: int| 0 <= i < packet.len() && i != at && i != at + 1 ==> packet[i] == other[i]
}

/// Calls `pnet_packet::ipv4::checksum` on the packet held in `packet`.
///
/// Trusted: the result is `pnet_ipv4_checksum(packet@)`, and, as the crate documents
/// ("the checksum field of the packet is regarded as zeros during the calculation"), the
/// two bytes of the checksum field (offsets 10 and 11) do not change it. The packet is
/// at least 20 bytes long, so that `Ipv4Packet::new` accepts it. Nothing is said of how
/// the value is computed.
#[verifier::external_body]
pub(crate) fn ipv4_header_checksum(packet: &[u8]) -> (sum: u16)
    requires
        packet@.len() >= 20,
    ensures
        sum == pnet_ipv4_checksum(packet@),
        forall|other: Seq<u8>|
            agree_except_word(packet@, other, 10) ==> #[trigger] pnet_ipv4_checksum(other) == sum,
{
    pnet_packet::ipv4::checksum(&pnet_packet::ipv4::Ipv4Packet::new(packet).unwrap())
}

/// Calls `pnet_packet::tcp::ipv4_checksum` on the segment held in `segment`, with the
/// pseudo-header addresses `source` and `destination`.
///
/// Trusted: the result is `pnet_tcp_ipv4_checksum(segment@, source@, destination@)`, and,
/// as the source shows (the word at offset 8 is skipped), the checksum field of the
/// segment (offsets 16 and 17) does not change it. The segment is at least 20 bytes long,
/// so that `TcpPacket::new` accepts it, and at most 65535, so that the crate's 32-bit sum
/// cannot overflow. Nothing is said of how the value is computed.
#[verifier::external_body]
pub(crate) fn tcp_segment_checksum(segment: &[u8], source: [u8; 4], destination: [u8; 4]) -> (sum: u16)
    requires
        20 <= segment@.len() <= 65535,
    ensures
        sum == pnet_tcp_ipv4_checksum(segment@, source@, destination@),
        forall|other: Seq<u8>|
            agree_except_word(segment@, other, 16) ==> #[trigger] pnet_tcp_ipv4_checksum(
                other,
                source@,
                destination@,
            ) == sum,
{
    pnet_packet::tcp::ipv4_checksum(
        &pnet_packet::tcp::TcpPacket::new(segment).unwrap(),
        &source.into(),
        &destination.into(),
    )
}

} // verus!
