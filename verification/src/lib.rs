//! Packet rewriting for a TUN loopback benchmark: the verified core.
pub mod bench;
pub mod checksum;
pub mod frame;
pub mod ipv4;
pub mod proxy;
