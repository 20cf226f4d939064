use tun_bench::ipv4::{DST_IP_A, DST_IP_B, SRC_IP};
use tun_bench::proxy::{proxy, proxy_dst};

fn tcp_segment() -> Vec<u8> {
    let mut seg = vec![
        0xc1, 0x67, 0x1f, 0x90, // ports 49511 -> 8080
        0, 0, 0, 1, // seq
        0, 0, 0, 0, // ack
        0x50, 0x02, 0xfa, 0xf0, // offset, SYN, window
        0, 0, // checksum
        0, 0, // urgent
    ];
    seg.extend_from_slice(b"abcdefghijklmnopqrst");
    seg
}

/// A 60-byte TCP packet from `src` to `dst` with a 20-byte header and 20 bytes of data.
fn packet(src: [u8; 4], dst: [u8; 4]) -> Vec<u8> {
    let mut p = vec![0x45, 0, 0, 60, 0x1c, 0x46, 0x40, 0, 0x40, 6, 0, 0];
    p.extend_from_slice(&src);
    p.extend_from_slice(&dst);
    p.extend_from_slice(&tcp_segment());
    p
}

fn u16_at(p: &[u8], at: usize) -> u16 {
    u16::from_be_bytes([p[at], p[at + 1]])
}

fn pnet_ip_valid(p: &[u8]) -> bool {
    let pkt = pnet_packet::ipv4::Ipv4Packet::new(p).unwrap();
    pnet_packet::ipv4::checksum(&pkt) == u16_at(p, 10)
}

fn pnet_tcp_valid(p: &[u8], start: usize, end: usize) -> bool {
    let seg = pnet_packet::tcp::TcpPacket::new(&p[start..end]).unwrap();
    let src = [p[12], p[13], p[14], p[15]];
    let dst = [p[16], p[17], p[18], p[19]];
    pnet_packet::tcp::ipv4_checksum(&seg, &src.into(), &dst.into()) == u16_at(p, start + 16)
}

#[test]
fn redirects_peer_a_to_come_from_peer_b() {
    let mut p = packet(SRC_IP, DST_IP_A);
    let before = p.clone();
    assert_eq!(proxy(&mut p), Some(()));
    assert_eq!(&p[12..16], &DST_IP_B);
    assert_eq!(&p[16..20], &SRC_IP);
    // Checksums worked out independently of pnet.
    assert_eq!(u16_at(&p, 10), 0x0871);
    assert_eq!(u16_at(&p, 36), 0x95ad);
    for i in 0..p.len() {
        if !(10..20).contains(&i) && i != 36 && i != 37 {
            assert_eq!(p[i], before[i], "byte {i}");
        }
    }
    assert!(pnet_ip_valid(&p));
    assert!(pnet_tcp_valid(&p, 20, 60));
}

#[test]
fn redirects_peer_b_to_come_from_peer_a() {
    let mut p = packet(SRC_IP, DST_IP_B);
    assert_eq!(proxy(&mut p), Some(()));
    assert_eq!(&p[12..16], &DST_IP_A);
    assert_eq!(&p[16..20], &SRC_IP);
    assert!(pnet_ip_valid(&p));
    assert!(pnet_tcp_valid(&p, 20, 60));
}

#[test]
fn header_options_and_trailing_bytes() {
    // Header of 6 words (one option word), total length 64; 6 more bytes follow that
    // are not part of the packet and stay out of the TCP checksum.
    let mut p = vec![0x46, 0, 0, 64, 0, 1, 0, 0, 0x40, 6, 0, 0];
    p.extend_from_slice(&SRC_IP);
    p.extend_from_slice(&DST_IP_B);
    p.extend_from_slice(&[1, 1, 1, 0]);
    p.extend_from_slice(&tcp_segment());
    p.extend_from_slice(&[9, 9, 9, 9, 9, 9]);
    assert_eq!(proxy(&mut p), Some(()));
    assert_eq!(&p[12..16], &DST_IP_A);
    assert_eq!(u16_at(&p, 10), 0x61b2);
    assert_eq!(u16_at(&p, 40), 0x95ae);
    assert_eq!(&p[64..], &[9, 9, 9, 9, 9, 9]);
    assert!(pnet_ip_valid(&p));
    assert!(pnet_tcp_valid(&p, 24, 64));
}

#[test]
fn refuses_short_buffer() {
    let mut p = packet(SRC_IP, DST_IP_A);
    p.truncate(19);
    let before = p.clone();
    assert_eq!(proxy(&mut p), None);
    assert_eq!(p, before);
}

#[test]
fn refuses_other_source() {
    let mut p = packet([10, 0, 1, 9], DST_IP_A);
    let before = p.clone();
    assert_eq!(proxy(&mut p), None);
    assert_eq!(p, before);
}

#[test]
fn refuses_udp() {
    let mut p = packet(SRC_IP, DST_IP_A);
    p[9] = 17;
    let before = p.clone();
    assert_eq!(proxy(&mut p), None);
    assert_eq!(p, before);
}

#[test]
fn refuses_other_destination() {
    let mut p = packet(SRC_IP, [8, 8, 8, 8]);
    let before = p.clone();
    assert_eq!(proxy(&mut p), None);
    assert_eq!(p, before);
}

#[test]
fn refuses_segment_shorter_than_tcp_header() {
    // Total length announces 39 bytes: the segment has only 19.
    let mut p = packet(SRC_IP, DST_IP_A);
    p[3] = 39;
    let before = p.clone();
    assert_eq!(proxy(&mut p), None);
    assert_eq!(p, before);
    // Nothing after the IPv4 header at all.
    let mut q = packet(SRC_IP, DST_IP_A);
    q.truncate(20);
    let before = q.clone();
    assert_eq!(proxy(&mut q), None);
    assert_eq!(q, before);
}

#[test]
fn header_length_below_five_words_still_puts_payload_at_20() {
    let mut p = packet(SRC_IP, DST_IP_A);
    p[0] = 0x42;
    assert_eq!(proxy(&mut p), Some(()));
    assert_eq!(&p[12..16], &DST_IP_B);
    assert!(pnet_ip_valid(&p));
    assert!(pnet_tcp_valid(&p, 20, 60));
}

#[test]
fn redirected_packet_is_not_redirected_again() {
    let mut p = packet(SRC_IP, DST_IP_A);
    assert_eq!(proxy(&mut p), Some(()));
    let once = p.clone();
    assert_eq!(proxy(&mut p), None);
    assert_eq!(p, once);
}

#[test]
fn reply_comes_back_from_original_destination() {
    let mut p = packet(SRC_IP, DST_IP_A);
    assert_eq!(proxy(&mut p), Some(()));
    // The reply to the redirected packet goes from its destination back to its source.
    let mut reply = packet(SRC_IP, [p[12], p[13], p[14], p[15]]);
    assert_eq!(proxy(&mut reply), Some(()));
    assert_eq!(&reply[12..16], &DST_IP_A);
    assert_eq!(&reply[16..20], &SRC_IP);
}

#[test]
fn proxy_dst_uses_given_peer() {
    let mut p = packet(SRC_IP, [1, 2, 3, 4]);
    assert_eq!(proxy_dst(&mut p, [10, 9, 8, 7]), Some(()));
    assert_eq!(&p[12..16], &[10, 9, 8, 7]);
    assert_eq!(&p[16..20], &SRC_IP);
    assert!(pnet_ip_valid(&p));
    assert!(pnet_tcp_valid(&p, 20, 60));
    let mut q = packet(SRC_IP, [1, 2, 3, 4]);
    q.truncate(30);
    let before = q.clone();
    assert_eq!(proxy_dst(&mut q, [10, 9, 8, 7]), None);
    assert_eq!(q, before);
}
