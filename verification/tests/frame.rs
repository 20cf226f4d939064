use bytes::BytesMut;
use tun_bench::frame::{offload_frame, packet_buffer, refill_frame};

#[test]
fn packet_buffer_copies_packet() {
    let b = packet_buffer(&[1, 2, 3, 4, 5], 1500);
    assert_eq!(&b[..], &[1, 2, 3, 4, 5]);
    assert!(b.capacity() >= 1500);
    let e = packet_buffer(&[], 0);
    assert!(e.is_empty());
}

#[test]
fn offload_frame_puts_zero_header_first() {
    let b = offload_frame(10, &[7, 8, 9], 10 + 65535);
    assert_eq!(&b[..], &[0, 0, 0, 0, 0, 0, 0, 0, 0, 0, 7, 8, 9]);
    let h = offload_frame(10, &[], 10);
    assert_eq!(&h[..], &[0; 10]);
}

#[test]
fn refill_keeps_header_and_replaces_packet() {
    let mut f = offload_frame(4, &[1, 2, 3, 4, 5, 6], 64);
    f[0] = 0xaa; // a header byte written by the device side
    refill_frame(&mut f, 4, &[9, 9]);
    assert_eq!(&f[..], &[0xaa, 0, 0, 0, 9, 9]);
}

#[test]
fn refill_of_frame_shorter_than_header_appends() {
    let mut f = BytesMut::new();
    f.extend_from_slice(&[5, 5]);
    refill_frame(&mut f, 4, &[1]);
    assert_eq!(&f[..], &[5, 5, 1]);
}
