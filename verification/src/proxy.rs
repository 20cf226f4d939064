//! The proxy: a TCP packet from the local address to one virtual peer is sent back to
//! the local address as if it came from the other peer.
use vstd::prelude::*;
use crate::checksum::{
    ipv4_header_checksum, pnet_ipv4_checksum, pnet_tcp_ipv4_checksum, tcp_segment_checksum,
    agree_except_word,
};
use crate::ipv4::{
    destination, lemma_payload_is_announced_segment, octets_equal, payload, payload_bounds, payload_end, payload_start, protocol, set_octets,
    set_u16, source, u16_at, with_octets, with_u16, DST_IP_A, DST_IP_B, IPV4_CHECKSUM_AT,
    IPV4_DESTINATION_AT, IPV4_MIN_LEN, IPV4_SOURCE_AT, PROTOCOL_TCP, SRC_IP, TCP_CHECKSUM_AT,
    TCP_MIN_LEN,
};

verus! {

/// The peer that stands in for `destination`: A for B and B for A, none for any other.
pub open spec fn peer_of(destination: Seq<u8>) -> Option<Seq<u8>> {
    if destination == DST_IP_A@ {
        Some(DST_IP_B@)
    } else if destination == DST_IP_B@ {
        Some(DST_IP_A@)
    } else {
        None
    }
}

/// `p` answered from `peer`: source `peer`, destination the local address, the TCP
/// checksum recomputed over the new pseudo-header, then the IPv4 header checksum
/// recomputed over the new header.
pub open spec fn rewritten(p: Seq<u8>, peer: Seq<u8>) -> Seq<u8> {
    let tcp_sum = pnet_tcp_ipv4_checksum(payload(p), peer, SRC_IP@);
    let q = with_u16(p, payload_start(p) + TCP_CHECKSUM_AT, tcp_sum);
    let q = with_octets(q, IPV4_DESTINATION_AT as int, SRC_IP@);
    let q = with_octets(q, IPV4_SOURCE_AT as int, peer);
    with_u16(q, IPV4_CHECKSUM_AT as int, pnet_ipv4_checksum(q))
}

/// What redirecting `p` to come from `peer` gives: none when the payload is too short
/// for a TCP header.
pub open spec fn redirected(p: Seq<u8>, peer: Seq<u8>) -> Option<Seq<u8>> {
    if payload(p).len() < TCP_MIN_LEN {
        None
    } else {
        Some(rewritten(p, peer))
    }
}

/// What the proxy makes of the bytes `p`: a TCP packet of at least a full IPv4 header,
/// from the local address to a virtual peer, is redirected from the other peer;
/// anything else is refused.
pub open spec fn proxied(p: Seq<u8>) -> Option<Seq<u8>> {
    if p.len() < IPV4_MIN_LEN || source(p) != SRC_IP@ || protocol(p) != PROTOCOL_TCP {
        None
    } else {
        match peer_of(destination(p)) {
            Some(peer) => redirected(p, peer),
            None => None,
        }
    }
}

/// The IPv4 header checksum field of `p` is what `pnet_packet` computes for `p`.
pub open spec fn ipv4_checksum_valid(p: Seq<u8>) -> bool {
    u16_at(p, IPV4_CHECKSUM_AT as int) == pnet_ipv4_checksum(p)
}

/// The TCP checksum field of the segment that `p` carries is what `pnet_packet` computes
/// for that segment under the addresses of `p`.
pub open spec fn tcp_checksum_valid(p: Seq<u8>) -> bool {
    u16_at(payload(p), TCP_CHECKSUM_AT as int) == pnet_tcp_ipv4_checksum(
        payload(p),
        source(p),
        destination(p),
    )
}

/// Rewrites the packet in `buf` to come from `dst` and go to the local address, with
/// both checksums recomputed; refuses, leaving `buf` as it was, when the payload is too
/// short for a TCP header.
pub fn proxy_dst(buf: &mut [u8], dst: [u8; 4]) -> (r: Option<()>)
    requires
        old(buf)@.len() >= IPV4_MIN_LEN,
    ensures
        r is Some <==> redirected(old(buf)@, dst@) is Some,
        r is Some ==> final(buf)@ == rewritten(old(buf)@, dst@),
        r is None ==> final(buf)@ == old(buf)@,
        r is Some ==> ipv4_checksum_valid(final(buf)@),
        r is Some ==> tcp_checksum_valid(final(buf)@),
{
    let ghost p = old(buf)@;
    let (start, end) = payload_bounds(buf);
    if buf.len() <= start || end - start < TCP_MIN_LEN {
        return None;
    }
    assert(payload(p) =~= p.subrange(start as int, end as int));
    let tcp_sum = tcp_segment_checksum(&buf[start..end], dst, SRC_IP);
    set_u16(buf, start + TCP_CHECKSUM_AT, tcp_sum);
    set_octets(buf, IPV4_DESTINATION_AT, SRC_IP);
    set_octets(buf, IPV4_SOURCE_AT, dst);
    let ghost q = buf@;
    let ip_sum = ipv4_header_checksum(buf);
    set_u16(buf, IPV4_CHECKSUM_AT, ip_sum);
    proof {
        let f = buf@;
        assert(f == rewritten(p, dst@));
        // The checksum field alone changed since the IPv4 checksum was computed.
        assert(agree_except_word(q, f, IPV4_CHECKSUM_AT as int));
        assert(pnet_ipv4_checksum(f) == ip_sum);
        // The header fields that place the payload are untouched.
        assert(f[0] == p[0] && f[2] == p[2] && f[3] == p[3]);
        assert(payload(f) =~= f.subrange(start as int, end as int));
        assert(agree_except_word(p.subrange(start as int, end as int), payload(f), TCP_CHECKSUM_AT as int));
        assert(source(f) =~= dst@);
        assert(destination(f) =~= SRC_IP@);
        assert(pnet_tcp_ipv4_checksum(payload(f), dst@, SRC_IP@) == tcp_sum);
    }
    Some(())
}

/// Redirects a TCP packet from the local address to one virtual peer so that it comes
/// back from the other peer (see `proxied`); refuses anything else and leaves it as it
/// was.
pub fn proxy(buf: &mut [u8]) -> (r: Option<()>)
    ensures
        r is Some <==> proxied(old(buf)@) is Some,
        r is Some ==> final(buf)@ == proxied(old(buf)@)->0,
        r is None ==> final(buf)@ == old(buf)@,
        r is Some ==> ipv4_checksum_valid(final(buf)@),
        r is Some ==> tcp_checksum_valid(final(buf)@),
        // Only TCP (protocol byte 9 equal to 6) from 10.0.1.2 to 10.0.1.3 or 10.0.1.4
        // is ever rewritten; anything else is refused and left as it was.
        old(buf)@.len() < 20 || old(buf)@[9] != 6 || old(buf)@.subrange(12, 16) != seq![
            10u8,
            0,
            1,
            2,
        ] || (old(buf)@.subrange(16, 20) != seq![10u8, 0, 1, 3] && old(buf)@.subrange(16, 20)
            != seq![10u8, 0, 1, 4]) ==> r is None && final(buf)@ == old(buf)@,
{
    proof {
        lemma_proxied_characterized(old(buf)@);
    }
    if buf.len() < IPV4_MIN_LEN {
        return None;
    }
    if !octets_equal(buf, IPV4_SOURCE_AT, SRC_IP) {
        return None;
    }
    if buf[9] != PROTOCOL_TCP {
        return None;
    }
    if octets_equal(buf, IPV4_DESTINATION_AT, DST_IP_A) {
        return proxy_dst(buf, DST_IP_B);
    }
    if octets_equal(buf, IPV4_DESTINATION_AT, DST_IP_B) {
        return proxy_dst(buf, DST_IP_A);
    }
    None
}


/// The two virtual peers stand in for each other: the peer of a peer is the address it
/// stands in for, and neither is the local address.
pub proof fn lemma_peers_swap(destination: Seq<u8>)
    ensures
        peer_of(destination) matches Some(peer) ==> {
            &&& peer_of(peer) == Some(destination)
            &&& peer != destination
            &&& peer != SRC_IP@
            &&& peer.len() == 4
        },
{
    assert(DST_IP_A@[3] != DST_IP_B@[3]);
    assert(DST_IP_A@[3] != SRC_IP@[3]);
    assert(DST_IP_B@[3] != SRC_IP@[3]);
}

/// Redirecting keeps the length and every byte but the two addresses and the two
/// checksum fields; the new source is the peer, the new destination the local address,
/// and the payload stays where it was.
pub proof fn lemma_rewrite_changes_only_addresses_and_checksums(p: Seq<u8>, peer: Seq<u8>)
    requires
        p.len() >= IPV4_MIN_LEN,
        payload(p).len() >= TCP_MIN_LEN,
        peer.len() == 4,
    ensures
        ({
            let r = rewritten(p, peer);
            let s = payload_start(p);
            &&& r.len() == p.len()
            &&& source(r) == peer
            &&& destination(r) == SRC_IP@
            &&& payload_start(r) == s
            &&& payload_end(r) == payload_end(p)
            &&& forall|i: int|
                0 <= i < p.len() && !(IPV4_CHECKSUM_AT <= i < IPV4_DESTINATION_AT + 4) && i != s
                    + TCP_CHECKSUM_AT && i != s + TCP_CHECKSUM_AT + 1 ==> #[trigger] r[i] == p[i]
        }),
{
    let r = rewritten(p, peer);
    assert(source(r) =~= peer);
    assert(destination(r) =~= SRC_IP@);
}

/// A packet that the proxy has redirected is never redirected again: it no longer comes
/// from the local address.
pub proof fn lemma_redirected_not_proxied_again(p: Seq<u8>)
    requires
        proxied(p) is Some,
    ensures
        proxied(proxied(p)->0) is None,
{
    lemma_peers_swap(destination(p));
    let peer = peer_of(destination(p))->0;
    lemma_rewrite_changes_only_addresses_and_checksums(p, peer);
}

/// The reply to a redirected packet (from its destination, the local address, back to
/// its source, the peer) is redirected in turn to come from where the first packet was
/// sent, and to go to where it came from.
pub proof fn lemma_reply_returns_from_original_destination(p: Seq<u8>, reply: Seq<u8>)
    requires
        proxied(p) is Some,
        reply.len() >= IPV4_MIN_LEN,
        source(reply) == destination(proxied(p)->0),
        destination(reply) == source(proxied(p)->0),
        protocol(reply) == PROTOCOL_TCP,
        payload(reply).len() >= TCP_MIN_LEN,
    ensures
        proxied(reply) is Some,
        source(proxied(reply)->0) == destination(p),
        destination(proxied(reply)->0) == source(p),
{
    lemma_peers_swap(destination(p));
    let peer = peer_of(destination(p))->0;
    lemma_rewrite_changes_only_addresses_and_checksums(p, peer);
    lemma_peers_swap(peer);
    lemma_rewrite_changes_only_addresses_and_checksums(reply, destination(p));
}

/// What redirecting a packet to come from `peer` does, read straight off its bytes
/// (`proxy_dst`): it succeeds exactly when the TCP segment that the header announces
/// (from the header length, never before byte 20, for the big-endian total length less
/// the header length, cut at the buffer end) has at least 20 bytes; the result has the
/// same length, comes from `peer`, goes to 10.0.1.2, carries pnet's TCP checksum of the
/// whole announced segment under those addresses and pnet's IPv4 checksum of the new
/// header, and keeps every other byte.
pub proof fn lemma_redirected_characterized(p: Seq<u8>, peer: Seq<u8>)
    requires
        p.len() >= 20,
        peer.len() == 4,
    ensures
        ({
            let local = seq![10u8, 0, 1, 2];
            let header = (p[0] % 16) * 4;
            let start = if header <= 20 { 20 } else { header };
            let total = p[2] * 256 + p[3];
            let announced = if total >= header { total - header } else { 0 };
            let end = if start + announced <= p.len() { start + announced } else { p.len() as int };
            let segment_len = if p.len() <= start { 0 } else { end - start };
            &&& redirected(p, peer) is Some <==> segment_len >= 20
            &&& redirected(p, peer) matches Some(r) ==> {
                &&& r.len() == p.len()
                &&& r.subrange(12, 16) == peer
                &&& r.subrange(16, 20) == local
                &&& r[start + 16] * 256 + r[start + 17] == pnet_tcp_ipv4_checksum(
                    p.subrange(start, end),
                    peer,
                    local,
                )
                &&& r[10] * 256 + r[11] == pnet_ipv4_checksum(
                    r.update(10, p[10]).update(11, p[11]),
                )
                &&& forall|i: int|
                    0 <= i < p.len() && !(10 <= i < 20) && i != start + 16 && i != start + 17
                        ==> #[trigger] r[i] == p[i]
            }
        }),
{
    assert(SRC_IP@ =~= seq![10u8, 0, 1, 2]);
    lemma_payload_is_announced_segment(p);
    if redirected(p, peer) is Some {
        lemma_rewrite_changes_only_addresses_and_checksums(p, peer);
        let start = payload_start(p);
        let r = rewritten(p, peer);
        let q = with_octets(
            with_octets(
                with_u16(p, start + TCP_CHECKSUM_AT, pnet_tcp_ipv4_checksum(payload(p), peer, SRC_IP@)),
                IPV4_DESTINATION_AT as int,
                SRC_IP@,
            ),
            IPV4_SOURCE_AT as int,
            peer,
        );
        assert(q =~= r.update(10, p[10]).update(11, p[11]));
        assert(r.subrange(12, 16) =~= peer);
        assert(r.subrange(16, 20) =~= SRC_IP@);
    }
}

/// What the proxy does, read straight off the bytes of the packet. It rewrites a packet
/// exactly when the buffer holds a full 20-byte IPv4 header, the protocol (byte 9) is 6
/// (TCP), the source is 10.0.1.2, the destination is 10.0.1.3 or 10.0.1.4, and the TCP
/// segment that the header announces (from the header length, never before byte 20, for
/// the big-endian total length less the header length, cut at the buffer end) has at
/// least 20 bytes. The rewritten packet has the same length; it comes from the other
/// peer and goes to 10.0.1.2; its TCP checksum field is pnet's checksum of the whole
/// announced segment under the new addresses, its IPv4 checksum field pnet's checksum of
/// the new header; every other byte is as it was.
pub proof fn lemma_proxied_characterized(p: Seq<u8>)
    ensures
        ({
            let local = seq![10u8, 0, 1, 2];
            let peer_a = seq![10u8, 0, 1, 3];
            let peer_b = seq![10u8, 0, 1, 4];
            let header = (p[0] % 16) * 4;
            let start = if header <= 20 { 20 } else { header };
            let total = p[2] * 256 + p[3];
            let announced = if total >= header { total - header } else { 0 };
            let end = if start + announced <= p.len() { start + announced } else { p.len() as int };
            let segment_len = if p.len() <= start { 0 } else { end - start };
            let peer = if p.subrange(16, 20) == peer_a { peer_b } else { peer_a };
            &&& proxied(p) is Some <==> {
                &&& p.len() >= 20
                &&& p[9] == 6
                &&& p.subrange(12, 16) == local
                &&& (p.subrange(16, 20) == peer_a || p.subrange(16, 20) == peer_b)
                &&& segment_len >= 20
            }
            &&& proxied(p) matches Some(r) ==> {
                &&& r.len() == p.len()
                &&& r.subrange(12, 16) == peer
                &&& r.subrange(16, 20) == local
                &&& r[start + 16] * 256 + r[start + 17] == pnet_tcp_ipv4_checksum(
                    p.subrange(start, end),
                    peer,
                    local,
                )
                &&& r[10] * 256 + r[11] == pnet_ipv4_checksum(
                    r.update(10, p[10]).update(11, p[11]),
                )
                &&& forall|i: int|
                    0 <= i < p.len() && !(10 <= i < 20) && i != start + 16 && i != start + 17
                        ==> #[trigger] r[i] == p[i]
            }
        }),
{
    assert(SRC_IP@ =~= seq![10u8, 0, 1, 2]);
    assert(DST_IP_A@ =~= seq![10u8, 0, 1, 3]);
    assert(DST_IP_B@ =~= seq![10u8, 0, 1, 4]);
    if p.len() >= 20 {
        lemma_payload_is_announced_segment(p);
        lemma_peers_swap(destination(p));
        if peer_of(destination(p)) is Some {
            lemma_redirected_characterized(p, peer_of(destination(p))->0);
        }
    }
}

} // verus!
