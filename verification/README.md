# tun_bench

A TUN-device throughput benchmark. Traffic from the local address 10.0.1.2 to one of
two virtual peers (10.0.1.3, 10.0.1.4) is read from the TUN device, rewritten to come
back from the other peer, and written to the device again, so that a TCP connection
to one peer loops back to a listener on the local address.

- `src/` is the verified library: the IPv4/TCP field layout (`ipv4`), the rewriting
  and its laws (`proxy`), the checksums delegated to `pnet_packet` (`checksum`), the
  send buffers built with `bytes` (`frame`), and the benchmark's setups and byte
  counting (`bench`).
- `app/` is the program: device creation with `tun_rs` (and `tun`), the async loops,
  channels, TCP speed tests and printing.
- `tests/` runs the library on concrete packets.
