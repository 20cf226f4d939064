use tun_bench::bench::{benchmark_plan, Transfer, TunType, MEBIBYTE, TEST_DATA_SIZE};
use tun_bench::ipv4::SRC_IP;

const ALL: [TunType; 6] = [
    TunType::TunRsStandard,
    TunType::TunRsChannelStandard,
    TunType::TunRsSyncStandard,
    TunType::TunRsTSO,
    TunType::TunRsChannelTSO,
    TunType::TunRsMultiQueue,
];

#[test]
fn labels() {
    assert_eq!(TunType::TunRsStandard.label(), "tun-rs: standard, recv/send");
    assert_eq!(TunType::TunRsChannelStandard.label(), "tun-rs: use channel, recv/send");
    assert_eq!(TunType::TunRsSyncStandard.label(), "tun-rs: sync-standard, recv/send");
    assert_eq!(TunType::TunRsTSO.label(), "tun-rs: use tso, recv_multiple/send_multiple");
    assert_eq!(
        TunType::TunRsChannelTSO.label(),
        "tun-rs: use tso+channel, recv_multiple/send_multiple"
    );
    assert_eq!(TunType::TunRsMultiQueue.label(), "tun-rs: use multi-queue, recv/send");
}

#[test]
fn settings_of_every_setup() {
    for t in ALL {
        let s = t.settings();
        assert_eq!(s.address, SRC_IP);
        assert_eq!(s.prefix_len, 24);
        assert_eq!(s.mtu, 1500);
        assert_eq!(s.offload, t == TunType::TunRsTSO || t == TunType::TunRsChannelTSO);
        assert_eq!(s.multi_queue, t == TunType::TunRsMultiQueue);
        assert_eq!(s.channel, t == TunType::TunRsChannelStandard || t == TunType::TunRsChannelTSO);
        assert_eq!(s.blocking, t == TunType::TunRsSyncStandard);
    }
}

#[test]
fn plan_runs_blocking_setup_last_and_once() {
    let plan = benchmark_plan();
    let got: Vec<(usize, TunType)> = plan.iter().map(|r| (r.runs, r.tun_type)).collect();
    let want = vec![
        (3, TunType::TunRsStandard),
        (3, TunType::TunRsChannelStandard),
        (3, TunType::TunRsTSO),
        (3, TunType::TunRsChannelTSO),
        (3, TunType::TunRsMultiQueue),
        (1, TunType::TunRsSyncStandard),
    ];
    assert!(got == want);
}

#[test]
fn transfer_counts_reads_until_end_of_stream() {
    let mut t = Transfer::new();
    assert_eq!(t.bytes, 0);
    assert!(t.on_read(8192));
    assert!(t.on_read(100));
    assert!(!t.on_read(0));
    assert_eq!(t.bytes, 8292);
    assert_eq!(t.mebibytes(), 0);
}

#[test]
fn transfer_sends_until_test_data_size() {
    let mut t = Transfer::new();
    assert!(!t.sent_all());
    t.record(TEST_DATA_SIZE - 1);
    assert!(!t.sent_all());
    t.record(1);
    assert!(t.sent_all());
    assert_eq!(t.mebibytes(), 1000);
    t.record(MEBIBYTE - 1);
    assert_eq!(t.mebibytes(), 1000);
}
