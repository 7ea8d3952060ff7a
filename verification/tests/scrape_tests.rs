use bitcoin_exporter::collect::Exporter;
use bitcoin_exporter::daemon::{
    BanEntry, BlockStats, BlockchainInfo, MemoryInfo, MempoolInfo, NetTotals, NetworkInfo,
    ScrapeData,
};
use bitcoin_exporter::encoder::encode;
use bitcoin_exporter::serve::metrics_response;

fn healthy_scrape() -> ScrapeData {
    let mut d = ScrapeData::empty();
    d.network_info = Some(NetworkInfo {
        version: 230000,
        protocol_version: 70016,
        connections: 12,
        connections_in: Some(4),
        connections_out: Some(8),
        warnings: Vec::new(),
    });
    d.blockchain_info = Some(BlockchainInfo {
        chain: "main".to_owned(),
        blocks: 800000,
        difficulty: format!("{}", 55e12_f64),
        size_on_disk: 5_000_000_000,
        verification_progress: "0.9999".to_owned(),
    });
    d.uptime = Some(12345);
    d.latest_block_stats = Some(BlockStats {
        total_size: 1_500_000,
        txs: 2500,
        height: 800000,
        total_weight: 4_000_000,
        ins: 6000,
        outs: 7000,
        total_out: "1234.5".to_owned(),
        total_fee: "0.25".to_owned(),
    });
    d.smart_fee_2 = Some(12000);
    d.smart_fee_3 = Some(11000);
    d.smart_fee_5 = Some(9000);
    d.smart_fee_20 = Some(5000);
    d.hashps_neg1 = Some("600000000000000000000".to_owned());
    d.hashps_1 = Some("590000000000000000000".to_owned());
    d.hashps = Some("580000000000000000000".to_owned());
    d.banned = Some(vec![BanEntry {
        address: "203.0.113.7/32".to_owned(),
        ban_created: 1700000000,
        banned_until: 1700086400,
    }]);
    d.chain_tx_count = Some(900000000);
    d.chain_tips_count = Some(3);
    d.memory_info = Some(MemoryInfo {
        used: 1000,
        free: 2000,
        total: 3000,
        locked: 500,
        chunks_used: 10,
        chunks_free: 20,
    });
    d.mempool_info = Some(MempoolInfo { bytes: 40000, size: 120, usage: 65000, unbroadcast: Some(2) });
    d.net_totals = Some(NetTotals { total_bytes_recv: 123456789, total_bytes_sent: 987654321 });
    d
}

#[test]
fn healthy_scrape_reports_chain_state() {
    let mut ex = Exporter::new();
    let d = healthy_scrape();
    let r = metrics_response(&mut ex, &d);
    assert_eq!(r.status, 200);
    assert_eq!(r.content_type.as_deref(), Some("text/plain; version=0.0.4"));
    assert!(r.body.contains("# TYPE bitcoin_blocks gauge\nbitcoin_blocks 800000\n"));
    assert!(r.body.contains("bitcoin_difficulty 55000000000000\n"));
    assert!(r
        .body
        .contains("bitcoin_uptime{version=\"230000\",protocol=\"70016\",chain=\"main\"} 12345\n"));
    assert!(r.body.contains("bitcoin_peers 12\n"));
    assert!(r.body.contains("bitcoin_conn_in 4\n"));
    assert!(r.body.contains("bitcoin_conn_out 8\n"));
    assert!(r.body.contains("bitcoin_est_smart_fee_2 12000\n"));
    assert!(r.body.contains("bitcoin_hashps 580000000000000000000\n"));
    assert!(r.body.contains("bitcoin_latest_block_value 1234.5\n"));
    assert!(r.body.contains(
        "bitcoin_ban_created{address=\"203.0.113.7/32\",reason=\"manually added\"} 1700000000\n"
    ));
    assert!(r.body.contains(
        "bitcoin_banned_until{address=\"203.0.113.7/32\",reason=\"manually added\"} 1700086400\n"
    ));
    assert!(r.body.contains("bitcoin_mempool_unbroadcast 2\n"));
    assert!(r.body.contains("bitcoin_total_bytes_sent 987654321\n"));
}

#[test]
fn all_calls_failing_still_serves_a_valid_document() {
    let mut ex = Exporter::new();
    let d = ScrapeData::empty();
    let r = metrics_response(&mut ex, &d);
    assert_eq!(r.status, 200);
    // every family is announced, unlabeled gauges sit at their initial zero
    assert!(r.body.contains("# TYPE bitcoin_blocks gauge\nbitcoin_blocks 0\n"));
    assert!(r.body.contains("# TYPE bitcoin_warnings counter\nbitcoin_warnings 0\n"));
    assert!(r.body.contains("# TYPE bitcoin_uptime gauge\n"));
    // no labeled tuple was ever observed, so no uptime or ban sample exists
    assert!(!r.body.contains("bitcoin_uptime{"));
    assert!(!r.body.contains("bitcoin_ban_created{"));
}

#[test]
fn failed_calls_leave_previous_values_untouched() {
    let mut ex = Exporter::new();
    let d = healthy_scrape();
    ex.collect(&d);
    let before = encode(&ex.registry);
    ex.collect(&ScrapeData::empty());
    let after = encode(&ex.registry);
    // every call failed: nothing was zeroed, nothing removed, nothing changed
    assert_eq!(before, after);
}

#[test]
fn partial_failure_updates_only_what_succeeded() {
    let mut ex = Exporter::new();
    ex.collect(&healthy_scrape());
    let mut d2 = ScrapeData::empty();
    d2.chain_tips_count = Some(5);
    ex.collect(&d2);
    let body = encode(&ex.registry);
    assert!(body.contains("bitcoin_num_chaintips 5\n"));
    // gated on calls that failed this scrape: stale values survive
    assert!(body.contains("bitcoin_blocks 800000\n"));
    assert!(body.contains("bitcoin_est_smart_fee_20 5000\n"));
}

#[test]
fn ban_tuples_accumulate_and_persist() {
    let mut ex = Exporter::new();
    let mut d = ScrapeData::empty();
    d.banned = Some(vec![BanEntry {
        address: "198.51.100.1/32".to_owned(),
        ban_created: 100,
        banned_until: 200,
    }]);
    ex.collect(&d);
    let body1 = encode(&ex.registry);
    assert!(body1
        .contains("bitcoin_ban_created{address=\"198.51.100.1/32\",reason=\"manually added\"} 100\n"));

    // the daemon no longer reports the ban: the tuple stays, stale
    let mut d2 = ScrapeData::empty();
    d2.banned = Some(Vec::new());
    ex.collect(&d2);
    let body2 = encode(&ex.registry);
    assert!(body2
        .contains("bitcoin_ban_created{address=\"198.51.100.1/32\",reason=\"manually added\"} 100\n"));

    // a new tuple is added beside it, and a re-reported one is updated in place
    let mut d3 = ScrapeData::empty();
    d3.banned = Some(vec![
        BanEntry { address: "198.51.100.1/32".to_owned(), ban_created: 100, banned_until: 999 },
        BanEntry { address: "198.51.100.2/32".to_owned(), ban_created: 300, banned_until: 400 },
    ]);
    ex.collect(&d3);
    let body3 = encode(&ex.registry);
    assert!(body3
        .contains("bitcoin_banned_until{address=\"198.51.100.1/32\",reason=\"manually added\"} 999\n"));
    assert!(body3
        .contains("bitcoin_ban_created{address=\"198.51.100.2/32\",reason=\"manually added\"} 300\n"));
}

#[test]
fn warning_counter_never_resets() {
    let mut ex = Exporter::new();
    let mut noisy = ScrapeData::empty();
    noisy.network_info = Some(NetworkInfo {
        version: 1,
        protocol_version: 1,
        connections: 0,
        connections_in: None,
        connections_out: None,
        warnings: vec!["pre-release test build".to_owned()],
    });
    ex.collect(&noisy);
    assert!(encode(&ex.registry).contains("bitcoin_warnings 1\n"));
    // the same warning again still increments: the counter is cumulative
    ex.collect(&noisy);
    assert!(encode(&ex.registry).contains("bitcoin_warnings 2\n"));
    // a failed call or a quiet daemon leaves it where it was
    ex.collect(&ScrapeData::empty());
    let mut quiet = noisy;
    quiet.network_info.as_mut().unwrap().warnings = Vec::new();
    ex.collect(&quiet);
    assert!(encode(&ex.registry).contains("bitcoin_warnings 2\n"));
}

#[test]
fn absent_subfields_leave_gauges_unset() {
    let mut ex = Exporter::new();
    let mut d = ScrapeData::empty();
    d.network_info = Some(NetworkInfo {
        version: 1,
        protocol_version: 1,
        connections: 3,
        connections_in: None,
        connections_out: None,
        warnings: Vec::new(),
    });
    ex.collect(&d);
    let body = encode(&ex.registry);
    assert!(body.contains("bitcoin_peers 3\n"));
    assert!(body.contains("bitcoin_conn_in 0\n"));
    assert!(body.contains("bitcoin_conn_out 0\n"));
}
