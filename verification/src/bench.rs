//! The benchmark's own decisions: which TUN setups it runs and how, and how it counts
//! the bytes of a speed test.
use vstd::prelude::*;
use crate::ipv4::SRC_IP;

verus! {

/// The MTU of every TUN device of the benchmark, and the size of its receive buffers.
pub const MTU: u16 = 1500;

/// The prefix length of the device's IPv4 network (255.255.255.0).
pub const PREFIX_LEN: u8 = 24;

/// How many packets the channel between receiving and sending holds.
pub const CHANNEL_CAPACITY: usize = 128;

/// How many bytes a speed test sends.
pub const TEST_DATA_SIZE: usize = 1000 * 1024 * 1024;

/// The size of one read or write of a speed test.
pub const CHUNK_SIZE: usize = 8192;

/// The TCP port that the speed test listens on and connects to.
pub const SPEED_TEST_PORT: u16 = 8080;

/// Bytes in a mebibyte.
pub const MEBIBYTE: usize = 1024 * 1024;

/// The ways of driving a TUN device that the benchmark compares.
#[derive(Clone, Copy, PartialEq, Eq, Structural)]
pub enum TunType {
    TunRsStandard,
    TunRsChannelStandard,
    TunRsSyncStandard,
    TunRsTSO,
    TunRsChannelTSO,
    TunRsMultiQueue,
}

/// How a TUN device is set up and driven for one way of driving it.
#[derive(Clone, Copy)]
pub struct DeviceSettings {
    /// The device's own IPv4 address.
    pub address: [u8; 4],
    /// The prefix length of its network.
    pub prefix_len: u8,
    /// Its MTU.
    pub mtu: u16,
    /// Whether TCP segmentation offload is on (batched receive and send).
    pub offload: bool,
    /// Whether the device has several queues, each served by a task of its own.
    pub multi_queue: bool,
    /// Whether received packets reach the sender through a channel.
    pub channel: bool,
    /// Whether the device is driven by a blocking loop rather than an async task.
    pub blocking: bool,
}

/// One entry of the benchmark: how many speed tests to run against which setup.
#[derive(Clone, Copy, PartialEq, Eq, Structural)]
pub struct BenchmarkRun {
    pub runs: usize,
    pub tun_type: TunType,
}

impl TunType {
    /// The text that names this setup in the benchmark's output.
    pub fn label(&self) -> (s: &'static str)
        ensures
            s@ == match *self {
                TunType::TunRsStandard => "tun-rs: standard, recv/send"@,
                TunType::TunRsChannelStandard => "tun-rs: use channel, recv/send"@,
                TunType::TunRsSyncStandard => "tun-rs: sync-standard, recv/send"@,
                TunType::TunRsTSO => "tun-rs: use tso, recv_multiple/send_multiple"@,
                TunType::TunRsChannelTSO => "tun-rs: use tso+channel, recv_multiple/send_multiple"@,
                TunType::TunRsMultiQueue => "tun-rs: use multi-queue, recv/send"@,
            },
    {
        match self {
            TunType::TunRsStandard => "tun-rs: standard, recv/send",
            TunType::TunRsChannelStandard => "tun-rs: use channel, recv/send",
            TunType::TunRsSyncStandard => "tun-rs: sync-standard, recv/send",
            TunType::TunRsTSO => "tun-rs: use tso, recv_multiple/send_multiple",
            TunType::TunRsChannelTSO => "tun-rs: use tso+channel, recv_multiple/send_multiple",
            TunType::TunRsMultiQueue => "tun-rs: use multi-queue, recv/send",
        }
    }

    /// The device settings of this setup: every device has the local address on a /24
    /// with an MTU of 1500; offload, several queues, a channel or a blocking loop as the
    /// setup's name says.
    pub fn settings(&self) -> (s: DeviceSettings)
        ensures
            s.address == SRC_IP,
            s.prefix_len == PREFIX_LEN,
            s.mtu == MTU,
            s.offload <==> (*self == TunType::TunRsTSO || *self == TunType::TunRsChannelTSO),
            s.multi_queue <==> *self == TunType::TunRsMultiQueue,
            s.channel <==> (*self == TunType::TunRsChannelStandard || *self
                == TunType::TunRsChannelTSO),
            s.blocking <==> *self == TunType::TunRsSyncStandard,
    {
        let (offload, multi_queue, channel, blocking) = match self {
            TunType::TunRsStandard => (false, false, false, false),
            TunType::TunRsChannelStandard => (false, false, true, false),
            TunType::TunRsSyncStandard => (false, false, false, true),
            TunType::TunRsTSO => (true, false, false, false),
            TunType::TunRsChannelTSO => (true, false, true, false),
            TunType::TunRsMultiQueue => (false, true, false, false),
        };
        DeviceSettings { address: SRC_IP, prefix_len: PREFIX_LEN, mtu: MTU, offload, multi_queue, channel, blocking }
    }
}

/// The benchmark's order of runs: three speed tests of each asynchronous setup, then a
/// single one of the blocking setup, which is never shut down and so comes last.
pub fn benchmark_plan() -> (plan: Vec<BenchmarkRun>)
    ensures
        plan@ == seq![
            BenchmarkRun { runs: 3, tun_type: TunType::TunRsStandard },
            BenchmarkRun { runs: 3, tun_type: TunType::TunRsChannelStandard },
            BenchmarkRun { runs: 3, tun_type: TunType::TunRsTSO },
            BenchmarkRun { runs: 3, tun_type: TunType::TunRsChannelTSO },
            BenchmarkRun { runs: 3, tun_type: TunType::TunRsMultiQueue },
            BenchmarkRun { runs: 1, tun_type: TunType::TunRsSyncStandard },
        ],
{
    let mut plan = Vec::new();
    plan.push(BenchmarkRun { runs: 3, tun_type: TunType::TunRsStandard });
    plan.push(BenchmarkRun { runs: 3, tun_type: TunType::TunRsChannelStandard });
    plan.push(BenchmarkRun { runs: 3, tun_type: TunType::TunRsTSO });
    plan.push(BenchmarkRun { runs: 3, tun_type: TunType::TunRsChannelTSO });
    plan.push(BenchmarkRun { runs: 3, tun_type: TunType::TunRsMultiQueue });
    plan.push(BenchmarkRun { runs: 1, tun_type: TunType::TunRsSyncStandard });
    plan
}

/// The bytes that one side of a speed test has moved so far.
pub struct Transfer {
    pub bytes: usize,
}

impl Transfer {
    /// A transfer that has moved nothing yet.
    pub fn new() -> (t: Transfer)
        ensures
            t.bytes == 0,
    {
        Transfer { bytes: 0 }
    }

    /// Counts `n` more bytes moved.
    pub fn record(&mut self, n: usize)
        requires
            old(self).bytes + n <= usize::MAX,
        ensures
            final(self).bytes == old(self).bytes + n,
    {
        self.bytes = self.bytes + n;
    }

    /// The receiving side's step: a read of `n` bytes; a read of none ends the stream.
    /// Returns whether to read on.
    pub fn on_read(&mut self, n: usize) -> (more: bool)
        requires
            old(self).bytes + n <= usize::MAX,
        ensures
            more <==> n != 0,
            final(self).bytes == old(self).bytes + n,
    {
        if n == 0 {
            return false;
        }
        self.record(n);
        true
    }

    /// Whether the sending side has sent the whole test data.
    pub fn sent_all(&self) -> (done: bool)
        ensures
            done <==> self.bytes >= TEST_DATA_SIZE,
    {
        self.bytes >= TEST_DATA_SIZE
    }

    /// The bytes moved, in whole mebibytes (rounded down).
    pub fn mebibytes(&self) -> (m: usize)
        ensures
            m == self.bytes / MEBIBYTE,
    {
        self.bytes / MEBIBYTE
    }
}

} // verus!
