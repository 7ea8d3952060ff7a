//! The exporter: the registry loaded with the full metric set, and the
//! collector set that writes one scrape's RPC results into it.
//!
//! Collectors are independent: each is gated on its own call's success, and a
//! failed call leaves every slot that collector would have written exactly as
//! it was. The `apply_*` spec functions below state, metric by metric, what
//! one scrape does to the registry.

use vstd::prelude::*;
use vstd::string::StringExecFns;

use crate::daemon::BanEntry;
use crate::daemon::BlockchainInfo;
use crate::daemon::NetworkInfo;
use crate::daemon::ScrapeData;
use crate::encoder::decimal;
use crate::encoder::u64_to_string;
use crate::registry::MetricKind;
use crate::registry::MetricModel;
use crate::registry::Registry;
use crate::registry::Value;
use crate::registry::ValueModel;
use crate::registry::has_name;
use crate::registry::has_labels;
use crate::registry::inc_value;
use crate::registry::initial_metric;
use crate::registry::registry_wf;
use crate::registry::set_value;
use crate::registry::samples_preserved;
use crate::registry::lemma_samples_preserved_trans;
use crate::registry::lemma_set_value_preserves;
use crate::registry::lemma_inc_value_preserves;
use crate::registry::metric_wf;

verus! {

/// Handle of the uptime gauge, labeled by version, protocol and chain.
pub const H_UPTIME: usize = 0;

/// Handle of the block-height gauge.
pub const H_BLOCKS: usize = 1;

/// Handle of the difficulty gauge.
pub const H_DIFFICULTY: usize = 2;

/// Handle of the peer-count gauge.
pub const H_PEERS: usize = 3;

/// Handle of the inbound-connections gauge.
pub const H_CONN_IN: usize = 4;

/// Handle of the outbound-connections gauge.
pub const H_CONN_OUT: usize = 5;

/// Handle of the warnings counter.
pub const H_WARNINGS: usize = 6;

/// Handle of the used-bytes memory gauge.
pub const H_MEMINFO_USED: usize = 7;

/// Handle of the available-bytes memory gauge.
pub const H_MEMINFO_FREE: usize = 8;

/// Handle of the managed-bytes memory gauge.
pub const H_MEMINFO_TOTAL: usize = 9;

/// Handle of the locked-bytes memory gauge.
pub const H_MEMINFO_LOCKED: usize = 10;

/// Handle of the allocated-chunks memory gauge.
pub const H_MEMINFO_CHUNKS_USED: usize = 11;

/// Handle of the unused-chunks memory gauge.
pub const H_MEMINFO_CHUNKS_FREE: usize = 12;

/// Handle of the mempool byte-size gauge.
pub const H_MEMPOOL_BYTES: usize = 13;

/// Handle of the mempool transaction-count gauge.
pub const H_MEMPOOL_SIZE: usize = 14;

/// Handle of the mempool memory-usage gauge.
pub const H_MEMPOOL_USAGE: usize = 15;

/// Handle of the mempool unbroadcast-count gauge.
pub const H_MEMPOOL_UNBROADCAST: usize = 16;

/// Handle of the latest-block height gauge.
pub const H_LATEST_BLOCK_HEIGHT: usize = 17;

/// Handle of the latest-block weight gauge.
pub const H_LATEST_BLOCK_WEIGHT: usize = 18;

/// Handle of the latest-block size gauge.
pub const H_LATEST_BLOCK_SIZE: usize = 19;

/// Handle of the latest-block transaction-count gauge.
pub const H_LATEST_BLOCK_TXS: usize = 20;

/// Handle of the chain transaction-count gauge.
pub const H_TXCOUNT: usize = 21;

/// Handle of the chain-tips gauge.
pub const H_NUM_CHAINTIPS: usize = 22;

/// Handle of the total-bytes-received gauge.
pub const H_TOTAL_BYTES_RECV: usize = 23;

/// Handle of the total-bytes-sent gauge.
pub const H_TOTAL_BYTES_SENT: usize = 24;

/// Handle of the latest-block input-count gauge.
pub const H_LATEST_BLOCK_INPUTS: usize = 25;

/// Handle of the latest-block output-count gauge.
pub const H_LATEST_BLOCK_OUTPUTS: usize = 26;

/// Handle of the latest-block total-value gauge.
pub const H_LATEST_BLOCK_VALUE: usize = 27;

/// Handle of the latest-block total-fee gauge.
pub const H_LATEST_BLOCK_FEE: usize = 28;

/// Handle of the ban-created gauge, labeled by address and reason.
pub const H_BAN_CREATED: usize = 29;

/// Handle of the ban-expiry gauge, labeled by address and reason.
pub const H_BANNED_UNTIL: usize = 30;

/// Handle of the size-on-disk gauge.
pub const H_SIZE_ON_DISK: usize = 31;

/// Handle of the verification-progress gauge.
pub const H_VERIFICATION_PROGRESS: usize = 32;

/// Handle of the hash-rate gauge for the window since the last difficulty
/// change.
pub const H_HASHPS_NEG1: usize = 33;

/// Handle of the hash-rate gauge for the last block.
pub const H_HASHPS_1: usize = 34;

/// Handle of the hash-rate gauge for the last 120 blocks.
pub const H_HASHPS: usize = 35;

/// Handle of the fee-estimate gauge for a 2-block horizon.
pub const H_SMART_FEE_2: usize = 36;

/// Handle of the fee-estimate gauge for a 3-block horizon.
pub const H_SMART_FEE_3: usize = 37;

/// Handle of the fee-estimate gauge for a 5-block horizon.
pub const H_SMART_FEE_5: usize = 38;

/// Handle of the fee-estimate gauge for a 20-block horizon.
pub const H_SMART_FEE_20: usize = 39;

/// How many metrics the exporter registers.
pub const METRIC_COUNT: usize = 40;

/// No label names.
pub open spec fn unlabeled() -> Seq<Seq<char>> {
    Seq::empty()
}

/// The registry after the connection metrics are registered.
pub open spec fn metrics_after_connection() -> Seq<MetricModel> {
    Seq::empty().push(
        initial_metric(
            "bitcoin_uptime"@,
            "Number of seconds the Bitcoin daemon has been running"@,
            MetricKind::Gauge,
            seq!["version"@, "protocol"@, "chain"@],
        ),
    ).push(initial_metric("bitcoin_blocks"@, "Block height"@, MetricKind::Gauge, unlabeled())).push(
        initial_metric("bitcoin_difficulty"@, "Difficulty"@, MetricKind::Gauge, unlabeled()),
    ).push(
        initial_metric("bitcoin_peers"@, "Number of peers"@, MetricKind::Gauge, unlabeled()),
    ).push(
        initial_metric(
            "bitcoin_conn_in"@,
            "Number of connections in"@,
            MetricKind::Gauge,
            unlabeled(),
        ),
    ).push(
        initial_metric(
            "bitcoin_conn_out"@,
            "Number of connections out"@,
            MetricKind::Gauge,
            unlabeled(),
        ),
    ).push(
        initial_metric(
            "bitcoin_warnings"@,
            "Number of network or blockchain warnings detected"@,
            MetricKind::Counter,
            unlabeled(),
        ),
    )
}

/// The registry after the memory and mempool metrics are registered.
pub open spec fn metrics_after_memory() -> Seq<MetricModel> {
    metrics_after_connection().push(
        initial_metric(
            "bitcoin_meminfo_used"@,
            "Number of bytes used"@,
            MetricKind::Gauge,
            unlabeled(),
        ),
    ).push(
        initial_metric(
            "bitcoin_meminfo_free"@,
            "Number of bytes available"@,
            MetricKind::Gauge,
            unlabeled(),
        ),
    ).push(
        initial_metric(
            "bitcoin_meminfo_total"@,
            "Number of bytes managed"@,
            MetricKind::Gauge,
            unlabeled(),
        ),
    ).push(
        initial_metric(
            "bitcoin_meminfo_locked"@,
            "Number of bytes locked"@,
            MetricKind::Gauge,
            unlabeled(),
        ),
    ).push(
        initial_metric(
            "bitcoin_meminfo_chunks_used"@,
            "Number of allocated chunks"@,
            MetricKind::Gauge,
            unlabeled(),
        ),
    ).push(
        initial_metric(
            "bitcoin_meminfo_chunks_free"@,
            "Number of unused chunks"@,
            MetricKind::Gauge,
            unlabeled(),
        ),
    ).push(
        initial_metric(
            "bitcoin_mempool_bytes"@,
            "Size of mempool in bytes"@,
            MetricKind::Gauge,
            unlabeled(),
        ),
    ).push(
        initial_metric(
            "bitcoin_mempool_size"@,
            "Number of unconfirmed transactions in mempool"@,
            MetricKind::Gauge,
            unlabeled(),
        ),
    ).push(
        initial_metric(
            "bitcoin_mempool_usage"@,
            "Total memory usage for the mempool"@,
            MetricKind::Gauge,
            unlabeled(),
        ),
    ).push(
        initial_metric(
            "bitcoin_mempool_unbroadcast"@,
            "Number of transactions waiting for acknowledgment"@,
            MetricKind::Gauge,
            unlabeled(),
        ),
    )
}

/// The registry after the chain and traffic metrics are registered.
pub open spec fn metrics_after_chain() -> Seq<MetricModel> {
    metrics_after_memory().push(
        initial_metric(
            "bitcoin_latest_block_height"@,
            "Height or index of latest block"@,
            MetricKind::Gauge,
            unlabeled(),
        ),
    ).push(
        initial_metric(
            "bitcoin_latest_block_weight"@,
            "Weight of latest block according to BIP 141"@,
            MetricKind::Gauge,
            unlabeled(),
        ),
    ).push(
        initial_metric(
            "bitcoin_latest_block_size"@,
            "Size of latest block in bytes"@,
            MetricKind::Gauge,
            unlabeled(),
        ),
    ).push(
        initial_metric(
            "bitcoin_latest_block_txs"@,
            "Number of transactions in latest block"@,
            MetricKind::Gauge,
            unlabeled(),
        ),
    ).push(
        initial_metric(
            "bitcoin_txcount"@,
            "Number of TX since the genesis block"@,
            MetricKind::Gauge,
            unlabeled(),
        ),
    ).push(
        initial_metric(
            "bitcoin_num_chaintips"@,
            "Number of known blockchain branches"@,
            MetricKind::Gauge,
            unlabeled(),
        ),
    ).push(
        initial_metric(
            "bitcoin_total_bytes_recv"@,
            "Total bytes received"@,
            MetricKind::Gauge,
            unlabeled(),
        ),
    ).push(
        initial_metric(
            "bitcoin_total_bytes_sent"@,
            "Total bytes sent"@,
            MetricKind::Gauge,
            unlabeled(),
        ),
    ).push(
        initial_metric(
            "bitcoin_latest_block_inputs"@,
            "Number of inputs in transactions of latest block"@,
            MetricKind::Gauge,
            unlabeled(),
        ),
    ).push(
        initial_metric(
            "bitcoin_latest_block_outputs"@,
            "Number of outputs in transactions of latest block"@,
            MetricKind::Gauge,
            unlabeled(),
        ),
    ).push(
        initial_metric(
            "bitcoin_latest_block_value"@,
            "Bitcoin value of all transactions in the latest block"@,
            MetricKind::Gauge,
            unlabeled(),
        ),
    ).push(
        initial_metric(
            "bitcoin_latest_block_fee"@,
            "Total fee to process the latest block"@,
            MetricKind::Gauge,
            unlabeled(),
        ),
    )
}

/// The registry a fresh exporter starts from: all forty metrics, registered
/// in a fixed order, each still at its initial state.
pub open spec fn initial_metrics() -> Seq<MetricModel> {
    metrics_after_chain().push(
        initial_metric(
            "bitcoin_ban_created"@,
            "Time the ban was created"@,
            MetricKind::Gauge,
            seq!["address"@, "reason"@],
        ),
    ).push(
        initial_metric(
            "bitcoin_banned_until"@,
            "Time the ban expires"@,
            MetricKind::Gauge,
            seq!["address"@, "reason"@],
        ),
    ).push(
        initial_metric(
            "bitcoin_size_on_disk"@,
            "Estimated size of the block and undo files"@,
            MetricKind::Gauge,
            unlabeled(),
        ),
    ).push(
        initial_metric(
            "bitcoin_verification_progress"@,
            "Estimate of verification progress [0..1]"@,
            MetricKind::Gauge,
            unlabeled(),
        ),
    ).push(
        initial_metric(
            "bitcoin_hashps_neg1"@,
            "Estimated network hash rate per second since the last difficulty change"@,
            MetricKind::Gauge,
            unlabeled(),
        ),
    ).push(
        initial_metric(
            "bitcoin_hashps_1"@,
            "Estimated network hash rate per second for the last block"@,
            MetricKind::Gauge,
            unlabeled(),
        ),
    ).push(
        initial_metric(
            "bitcoin_hashps"@,
            "Estimated network hash rate per second for the last 120 blocks"@,
            MetricKind::Gauge,
            unlabeled(),
        ),
    ).push(
        initial_metric(
            "bitcoin_est_smart_fee_2"@,
            "Estimated smart fee per kilobyte for confirmation in 2 blocks"@,
            MetricKind::Gauge,
            unlabeled(),
        ),
    ).push(
        initial_metric(
            "bitcoin_est_smart_fee_3"@,
            "Estimated smart fee per kilobyte for confirmation in 3 blocks"@,
            MetricKind::Gauge,
            unlabeled(),
        ),
    ).push(
        initial_metric(
            "bitcoin_est_smart_fee_5"@,
            "Estimated smart fee per kilobyte for confirmation in 5 blocks"@,
            MetricKind::Gauge,
            unlabeled(),
        ),
    ).push(
        initial_metric(
            "bitcoin_est_smart_fee_20"@,
            "Estimated smart fee per kilobyte for confirmation in 20 blocks"@,
            MetricKind::Gauge,
            unlabeled(),
        ),
    )
}

/// Metric `h` of `r` has the given name, kind and label width.
pub open spec fn shape(
    r: Seq<MetricModel>,
    h: int,
    name: Seq<char>,
    kind: MetricKind,
    width: int,
) -> bool {
    &&& 0 <= h < r.len()
    &&& r[h].name == name
    &&& r[h].kind == kind
    &&& r[h].label_names.len() == width
}

/// The fixed descriptor layout every exporter registry keeps for life: forty
/// metrics, each with its documented name, kind and label width at its handle.
pub open spec fn shapes_ok(r: Seq<MetricModel>) -> bool {
    &&& r.len() == METRIC_COUNT
    &&& shape(r, H_UPTIME as int, "bitcoin_uptime"@, MetricKind::Gauge, 3)
    &&& shape(r, H_BLOCKS as int, "bitcoin_blocks"@, MetricKind::Gauge, 0)
    &&& shape(r, H_DIFFICULTY as int, "bitcoin_difficulty"@, MetricKind::Gauge, 0)
    &&& shape(r, H_PEERS as int, "bitcoin_peers"@, MetricKind::Gauge, 0)
    &&& shape(r, H_CONN_IN as int, "bitcoin_conn_in"@, MetricKind::Gauge, 0)
    &&& shape(r, H_CONN_OUT as int, "bitcoin_conn_out"@, MetricKind::Gauge, 0)
    &&& shape(r, H_WARNINGS as int, "bitcoin_warnings"@, MetricKind::Counter, 0)
    &&& shape(r, H_MEMINFO_USED as int, "bitcoin_meminfo_used"@, MetricKind::Gauge, 0)
    &&& shape(r, H_MEMINFO_FREE as int, "bitcoin_meminfo_free"@, MetricKind::Gauge, 0)
    &&& shape(r, H_MEMINFO_TOTAL as int, "bitcoin_meminfo_total"@, MetricKind::Gauge, 0)
    &&& shape(r, H_MEMINFO_LOCKED as int, "bitcoin_meminfo_locked"@, MetricKind::Gauge, 0)
    &&& shape(r, H_MEMINFO_CHUNKS_USED as int, "bitcoin_meminfo_chunks_used"@, MetricKind::Gauge, 0)
    &&& shape(r, H_MEMINFO_CHUNKS_FREE as int, "bitcoin_meminfo_chunks_free"@, MetricKind::Gauge, 0)
    &&& shape(r, H_MEMPOOL_BYTES as int, "bitcoin_mempool_bytes"@, MetricKind::Gauge, 0)
    &&& shape(r, H_MEMPOOL_SIZE as int, "bitcoin_mempool_size"@, MetricKind::Gauge, 0)
    &&& shape(r, H_MEMPOOL_USAGE as int, "bitcoin_mempool_usage"@, MetricKind::Gauge, 0)
    &&& shape(r, H_MEMPOOL_UNBROADCAST as int, "bitcoin_mempool_unbroadcast"@, MetricKind::Gauge, 0)
    &&& shape(r, H_LATEST_BLOCK_HEIGHT as int, "bitcoin_latest_block_height"@, MetricKind::Gauge, 0)
    &&& shape(r, H_LATEST_BLOCK_WEIGHT as int, "bitcoin_latest_block_weight"@, MetricKind::Gauge, 0)
    &&& shape(r, H_LATEST_BLOCK_SIZE as int, "bitcoin_latest_block_size"@, MetricKind::Gauge, 0)
    &&& shape(r, H_LATEST_BLOCK_TXS as int, "bitcoin_latest_block_txs"@, MetricKind::Gauge, 0)
    &&& shape(r, H_TXCOUNT as int, "bitcoin_txcount"@, MetricKind::Gauge, 0)
    &&& shape(r, H_NUM_CHAINTIPS as int, "bitcoin_num_chaintips"@, MetricKind::Gauge, 0)
    &&& shape(r, H_TOTAL_BYTES_RECV as int, "bitcoin_total_bytes_recv"@, MetricKind::Gauge, 0)
    &&& shape(r, H_TOTAL_BYTES_SENT as int, "bitcoin_total_bytes_sent"@, MetricKind::Gauge, 0)
    &&& shape(r, H_LATEST_BLOCK_INPUTS as int, "bitcoin_latest_block_inputs"@, MetricKind::Gauge, 0)
    &&& shape(
        r,
        H_LATEST_BLOCK_OUTPUTS as int,
        "bitcoin_latest_block_outputs"@,
        MetricKind::Gauge,
        0,
    )
    &&& shape(r, H_LATEST_BLOCK_VALUE as int, "bitcoin_latest_block_value"@, MetricKind::Gauge, 0)
    &&& shape(r, H_LATEST_BLOCK_FEE as int, "bitcoin_latest_block_fee"@, MetricKind::Gauge, 0)
    &&& shape(r, H_BAN_CREATED as int, "bitcoin_ban_created"@, MetricKind::Gauge, 2)
    &&& shape(r, H_BANNED_UNTIL as int, "bitcoin_banned_until"@, MetricKind::Gauge, 2)
    &&& shape(r, H_SIZE_ON_DISK as int, "bitcoin_size_on_disk"@, MetricKind::Gauge, 0)
    &&& shape(
        r,
        H_VERIFICATION_PROGRESS as int,
        "bitcoin_verification_progress"@,
        MetricKind::Gauge,
        0,
    )
    &&& shape(r, H_HASHPS_NEG1 as int, "bitcoin_hashps_neg1"@, MetricKind::Gauge, 0)
    &&& shape(r, H_HASHPS_1 as int, "bitcoin_hashps_1"@, MetricKind::Gauge, 0)
    &&& shape(r, H_HASHPS as int, "bitcoin_hashps"@, MetricKind::Gauge, 0)
    &&& shape(r, H_SMART_FEE_2 as int, "bitcoin_est_smart_fee_2"@, MetricKind::Gauge, 0)
    &&& shape(r, H_SMART_FEE_3 as int, "bitcoin_est_smart_fee_3"@, MetricKind::Gauge, 0)
    &&& shape(r, H_SMART_FEE_5 as int, "bitcoin_est_smart_fee_5"@, MetricKind::Gauge, 0)
    &&& shape(r, H_SMART_FEE_20 as int, "bitcoin_est_smart_fee_20"@, MetricKind::Gauge, 0)
}

/// The exporter: the registry with the full metric set, written by the
/// collectors and read by the encoder.
pub struct Exporter {
    pub registry: Registry,
}

impl Exporter {
    /// The registry is well formed and keeps the fixed descriptor layout.
    pub open spec fn wf(self) -> bool {
        &&& registry_wf(self.registry@)
        &&& shapes_ok(self.registry@)
    }

    /// A fresh exporter: every metric registered, none written yet.
    pub fn new() -> (ex: Exporter)
        ensures
            ex.wf(),
            ex.registry@ == initial_metrics(),
    {
        let mut r = Registry::new();
        register_connection_metrics(&mut r);
        register_memory_metrics(&mut r);
        register_chain_metrics(&mut r);
        register_ban_and_fee_metrics(&mut r);
        let ex = Exporter { registry: r };
        proof {
            assert(shapes_ok(initial_metrics()));
        }
        ex
    }
}

/// Register one unlabeled metric whose name is still free.
fn reg_plain(r: &mut Registry, name: &str, help: &str, kind: MetricKind)
    requires
        old(r).wf(),
        !has_name(old(r)@, name@),
    ensures
        final(r).wf(),
        final(r)@ == old(r)@.push(initial_metric(name@, help@, kind, unlabeled())),
{
    let labels: Vec<String> = Vec::new();
    proof {
        assert(labels.deep_view() =~= unlabeled());
    }
    let res = r.register(name.to_owned(), help.to_owned(), kind, labels);
    match res {
        Ok(_) => {},
        Err(_) => {
            proof {
                assert(false);
            }
        },
    }
}

/// Register one labeled gauge whose name is still free.
fn reg_labeled(r: &mut Registry, name: &str, help: &str, label_names: Vec<String>)
    requires
        old(r).wf(),
        !has_name(old(r)@, name@),
    ensures
        final(r).wf(),
        final(r)@ == old(r)@.push(
            initial_metric(name@, help@, MetricKind::Gauge, label_names.deep_view()),
        ),
{
    let res = r.register(name.to_owned(), help.to_owned(), MetricKind::Gauge, label_names);
    match res {
        Ok(_) => {},
        Err(_) => {
            proof {
                assert(false);
            }
        },
    }
}

/// Register the uptime, connection and warning metrics.
fn register_connection_metrics(r: &mut Registry)
    requires
        old(r).wf(),
        old(r)@ == Seq::<MetricModel>::empty(),
    ensures
        final(r).wf(),
        final(r)@ == metrics_after_connection(),
{
    proof {
        reveal_strlit("bitcoin_uptime");
        reveal_strlit("bitcoin_blocks");
        reveal_strlit("bitcoin_difficulty");
        reveal_strlit("bitcoin_peers");
        reveal_strlit("bitcoin_conn_in");
        reveal_strlit("bitcoin_conn_out");
        reveal_strlit("bitcoin_warnings");
        assert("bitcoin_uptime"@.len() == 14);
        assert("bitcoin_blocks"@.len() == 14);
        assert("bitcoin_difficulty"@.len() == 18);
        assert("bitcoin_peers"@.len() == 13);
        assert("bitcoin_conn_in"@.len() == 15);
        assert("bitcoin_conn_out"@.len() == 16);
        assert("bitcoin_warnings"@.len() == 16);
        assert("bitcoin_uptime"@[8] != "bitcoin_blocks"@[8]);
        assert("bitcoin_conn_out"@[8] != "bitcoin_warnings"@[8]);
    }
    let mut uptime_labels: Vec<String> = Vec::new();
    uptime_labels.push("version".to_owned());
    uptime_labels.push("protocol".to_owned());
    uptime_labels.push("chain".to_owned());
    proof {
        assert(uptime_labels.deep_view() =~= seq!["version"@, "protocol"@, "chain"@]);
    }
    reg_labeled(
        r,
        "bitcoin_uptime",
        "Number of seconds the Bitcoin daemon has been running",
        uptime_labels,
    );
    reg_plain(r, "bitcoin_blocks", "Block height", MetricKind::Gauge);
    reg_plain(r, "bitcoin_difficulty", "Difficulty", MetricKind::Gauge);
    reg_plain(r, "bitcoin_peers", "Number of peers", MetricKind::Gauge);
    reg_plain(r, "bitcoin_conn_in", "Number of connections in", MetricKind::Gauge);
    reg_plain(r, "bitcoin_conn_out", "Number of connections out", MetricKind::Gauge);
    reg_plain(
        r,
        "bitcoin_warnings",
        "Number of network or blockchain warnings detected",
        MetricKind::Counter,
    );
    proof {
        assert(r@ =~~= metrics_after_connection());
    }
}

/// Register the memory-allocator and mempool metrics.
fn register_memory_metrics(r: &mut Registry)
    requires
        old(r).wf(),
        old(r)@ == metrics_after_connection(),
    ensures
        final(r).wf(),
        final(r)@ == metrics_after_memory(),
{
    proof {
        reveal_strlit("bitcoin_uptime");
        reveal_strlit("bitcoin_blocks");
        reveal_strlit("bitcoin_difficulty");
        reveal_strlit("bitcoin_peers");
        reveal_strlit("bitcoin_conn_in");
        reveal_strlit("bitcoin_conn_out");
        reveal_strlit("bitcoin_warnings");
        reveal_strlit("bitcoin_meminfo_used");
        reveal_strlit("bitcoin_meminfo_free");
        reveal_strlit("bitcoin_meminfo_total");
        reveal_strlit("bitcoin_meminfo_locked");
        reveal_strlit("bitcoin_meminfo_chunks_used");
        reveal_strlit("bitcoin_meminfo_chunks_free");
        reveal_strlit("bitcoin_mempool_bytes");
        reveal_strlit("bitcoin_mempool_size");
        reveal_strlit("bitcoin_mempool_usage");
        reveal_strlit("bitcoin_mempool_unbroadcast");
        assert("bitcoin_uptime"@.len() == 14);
        assert("bitcoin_blocks"@.len() == 14);
        assert("bitcoin_difficulty"@.len() == 18);
        assert("bitcoin_peers"@.len() == 13);
        assert("bitcoin_conn_in"@.len() == 15);
        assert("bitcoin_conn_out"@.len() == 16);
        assert("bitcoin_warnings"@.len() == 16);
        assert("bitcoin_meminfo_used"@.len() == 20);
        assert("bitcoin_meminfo_free"@.len() == 20);
        assert("bitcoin_meminfo_total"@.len() == 21);
        assert("bitcoin_meminfo_locked"@.len() == 22);
        assert("bitcoin_meminfo_chunks_used"@.len() == 27);
        assert("bitcoin_meminfo_chunks_free"@.len() == 27);
        assert("bitcoin_mempool_bytes"@.len() == 21);
        assert("bitcoin_mempool_size"@.len() == 20);
        assert("bitcoin_mempool_usage"@.len() == 21);
        assert("bitcoin_mempool_unbroadcast"@.len() == 27);
        assert("bitcoin_meminfo_used"@[16] != "bitcoin_meminfo_free"@[16]);
        assert("bitcoin_meminfo_chunks_used"@[23] != "bitcoin_meminfo_chunks_free"@[23]);
        assert("bitcoin_meminfo_total"@[11] != "bitcoin_mempool_bytes"@[11]);
        assert("bitcoin_meminfo_used"@[11] != "bitcoin_mempool_size"@[11]);
        assert("bitcoin_meminfo_free"@[11] != "bitcoin_mempool_size"@[11]);
        assert("bitcoin_meminfo_total"@[11] != "bitcoin_mempool_usage"@[11]);
        assert("bitcoin_mempool_bytes"@[16] != "bitcoin_mempool_usage"@[16]);
        assert("bitcoin_meminfo_chunks_used"@[11] != "bitcoin_mempool_unbroadcast"@[11]);
        assert("bitcoin_meminfo_chunks_free"@[11] != "bitcoin_mempool_unbroadcast"@[11]);
    }
    reg_plain(r, "bitcoin_meminfo_used", "Number of bytes used", MetricKind::Gauge);
    reg_plain(r, "bitcoin_meminfo_free", "Number of bytes available", MetricKind::Gauge);
    reg_plain(r, "bitcoin_meminfo_total", "Number of bytes managed", MetricKind::Gauge);
    reg_plain(r, "bitcoin_meminfo_locked", "Number of bytes locked", MetricKind::Gauge);
    reg_plain(r, "bitcoin_meminfo_chunks_used", "Number of allocated chunks", MetricKind::Gauge);
    reg_plain(r, "bitcoin_meminfo_chunks_free", "Number of unused chunks", MetricKind::Gauge);
    reg_plain(r, "bitcoin_mempool_bytes", "Size of mempool in bytes", MetricKind::Gauge);
    reg_plain(
        r,
        "bitcoin_mempool_size",
        "Number of unconfirmed transactions in mempool",
        MetricKind::Gauge,
    );
    reg_plain(r, "bitcoin_mempool_usage", "Total memory usage for the mempool", MetricKind::Gauge);
    reg_plain(
        r,
        "bitcoin_mempool_unbroadcast",
        "Number of transactions waiting for acknowledgment",
        MetricKind::Gauge,
    );
    proof {
        assert(r@ =~~= metrics_after_memory());
    }
}

/// Register the latest-block, chain and traffic metrics.
fn register_chain_metrics(r: &mut Registry)
    requires
        old(r).wf(),
        old(r)@ == metrics_after_memory(),
    ensures
        final(r).wf(),
        final(r)@ == metrics_after_chain(),
{
    proof {
        reveal_strlit("bitcoin_uptime");
        reveal_strlit("bitcoin_blocks");
        reveal_strlit("bitcoin_difficulty");
        reveal_strlit("bitcoin_peers");
        reveal_strlit("bitcoin_conn_in");
        reveal_strlit("bitcoin_conn_out");
        reveal_strlit("bitcoin_warnings");
        reveal_strlit("bitcoin_meminfo_used");
        reveal_strlit("bitcoin_meminfo_free");
        reveal_strlit("bitcoin_meminfo_total");
        reveal_strlit("bitcoin_meminfo_locked");
        reveal_strlit("bitcoin_meminfo_chunks_used");
        reveal_strlit("bitcoin_meminfo_chunks_free");
        reveal_strlit("bitcoin_mempool_bytes");
        reveal_strlit("bitcoin_mempool_size");
        reveal_strlit("bitcoin_mempool_usage");
        reveal_strlit("bitcoin_mempool_unbroadcast");
        reveal_strlit("bitcoin_latest_block_height");
        reveal_strlit("bitcoin_latest_block_weight");
        reveal_strlit("bitcoin_latest_block_size");
        reveal_strlit("bitcoin_latest_block_txs");
        reveal_strlit("bitcoin_txcount");
        reveal_strlit("bitcoin_num_chaintips");
        reveal_strlit("bitcoin_total_bytes_recv");
        reveal_strlit("bitcoin_total_bytes_sent");
        reveal_strlit("bitcoin_latest_block_inputs");
        reveal_strlit("bitcoin_latest_block_outputs");
        reveal_strlit("bitcoin_latest_block_value");
        reveal_strlit("bitcoin_latest_block_fee");
        assert("bitcoin_uptime"@.len() == 14);
        assert("bitcoin_blocks"@.len() == 14);
        assert("bitcoin_difficulty"@.len() == 18);
        assert("bitcoin_peers"@.len() == 13);
        assert("bitcoin_conn_in"@.len() == 15);
        assert("bitcoin_conn_out"@.len() == 16);
        assert("bitcoin_warnings"@.len() == 16);
        assert("bitcoin_meminfo_used"@.len() == 20);
        assert("bitcoin_meminfo_free"@.len() == 20);
        assert("bitcoin_meminfo_total"@.len() == 21);
        assert("bitcoin_meminfo_locked"@.len() == 22);
        assert("bitcoin_meminfo_chunks_used"@.len() == 27);
        assert("bitcoin_meminfo_chunks_free"@.len() == 27);
        assert("bitcoin_mempool_bytes"@.len() == 21);
        assert("bitcoin_mempool_size"@.len() == 20);
        assert("bitcoin_mempool_usage"@.len() == 21);
        assert("bitcoin_mempool_unbroadcast"@.len() == 27);
        assert("bitcoin_latest_block_height"@.len() == 27);
        assert("bitcoin_latest_block_weight"@.len() == 27);
        assert("bitcoin_latest_block_size"@.len() == 25);
        assert("bitcoin_latest_block_txs"@.len() == 24);
        assert("bitcoin_txcount"@.len() == 15);
        assert("bitcoin_num_chaintips"@.len() == 21);
        assert("bitcoin_total_bytes_recv"@.len() == 24);
        assert("bitcoin_total_bytes_sent"@.len() == 24);
        assert("bitcoin_latest_block_inputs"@.len() == 27);
        assert("bitcoin_latest_block_outputs"@.len() == 28);
        assert("bitcoin_latest_block_value"@.len() == 26);
        assert("bitcoin_latest_block_fee"@.len() == 24);
        assert("bitcoin_meminfo_chunks_used"@[8] != "bitcoin_latest_block_height"@[8]);
        assert("bitcoin_meminfo_chunks_free"@[8] != "bitcoin_latest_block_height"@[8]);
        assert("bitcoin_mempool_unbroadcast"@[8] != "bitcoin_latest_block_height"@[8]);
        assert("bitcoin_meminfo_chunks_used"@[8] != "bitcoin_latest_block_weight"@[8]);
        assert("bitcoin_meminfo_chunks_free"@[8] != "bitcoin_latest_block_weight"@[8]);
        assert("bitcoin_mempool_unbroadcast"@[8] != "bitcoin_latest_block_weight"@[8]);
        assert("bitcoin_latest_block_height"@[21] != "bitcoin_latest_block_weight"@[21]);
        assert("bitcoin_conn_in"@[8] != "bitcoin_txcount"@[8]);
        assert("bitcoin_meminfo_total"@[8] != "bitcoin_num_chaintips"@[8]);
        assert("bitcoin_mempool_bytes"@[8] != "bitcoin_num_chaintips"@[8]);
        assert("bitcoin_mempool_usage"@[8] != "bitcoin_num_chaintips"@[8]);
        assert("bitcoin_latest_block_txs"@[8] != "bitcoin_total_bytes_recv"@[8]);
        assert("bitcoin_latest_block_txs"@[8] != "bitcoin_total_bytes_sent"@[8]);
        assert("bitcoin_total_bytes_recv"@[20] != "bitcoin_total_bytes_sent"@[20]);
        assert("bitcoin_meminfo_chunks_used"@[8] != "bitcoin_latest_block_inputs"@[8]);
        assert("bitcoin_meminfo_chunks_free"@[8] != "bitcoin_latest_block_inputs"@[8]);
        assert("bitcoin_mempool_unbroadcast"@[8] != "bitcoin_latest_block_inputs"@[8]);
        assert("bitcoin_latest_block_height"@[21] != "bitcoin_latest_block_inputs"@[21]);
        assert("bitcoin_latest_block_weight"@[21] != "bitcoin_latest_block_inputs"@[21]);
        assert("bitcoin_latest_block_txs"@[21] != "bitcoin_latest_block_fee"@[21]);
        assert("bitcoin_total_bytes_recv"@[8] != "bitcoin_latest_block_fee"@[8]);
        assert("bitcoin_total_bytes_sent"@[8] != "bitcoin_latest_block_fee"@[8]);
    }
    reg_plain(
        r,
        "bitcoin_latest_block_height",
        "Height or index of latest block",
        MetricKind::Gauge,
    );
    reg_plain(
        r,
        "bitcoin_latest_block_weight",
        "Weight of latest block according to BIP 141",
        MetricKind::Gauge,
    );
    reg_plain(r, "bitcoin_latest_block_size", "Size of latest block in bytes", MetricKind::Gauge);
    reg_plain(
        r,
        "bitcoin_latest_block_txs",
        "Number of transactions in latest block",
        MetricKind::Gauge,
    );
    reg_plain(r, "bitcoin_txcount", "Number of TX since the genesis block", MetricKind::Gauge);
    reg_plain(
        r,
        "bitcoin_num_chaintips",
        "Number of known blockchain branches",
        MetricKind::Gauge,
    );
    reg_plain(r, "bitcoin_total_bytes_recv", "Total bytes received", MetricKind::Gauge);
    reg_plain(r, "bitcoin_total_bytes_sent", "Total bytes sent", MetricKind::Gauge);
    reg_plain(
        r,
        "bitcoin_latest_block_inputs",
        "Number of inputs in transactions of latest block",
        MetricKind::Gauge,
    );
    reg_plain(
        r,
        "bitcoin_latest_block_outputs",
        "Number of outputs in transactions of latest block",
        MetricKind::Gauge,
    );
    reg_plain(
        r,
        "bitcoin_latest_block_value",
        "Bitcoin value of all transactions in the latest block",
        MetricKind::Gauge,
    );
    reg_plain(
        r,
        "bitcoin_latest_block_fee",
        "Total fee to process the latest block",
        MetricKind::Gauge,
    );
    proof {
        assert(r@ =~~= metrics_after_chain());
    }
}

/// Register the ban-list, size, progress, hash-rate and fee metrics.
fn register_ban_and_fee_metrics(r: &mut Registry)
    requires
        old(r).wf(),
        old(r)@ == metrics_after_chain(),
    ensures
        final(r).wf(),
        final(r)@ == initial_metrics(),
{
    proof {
        reveal_strlit("bitcoin_uptime");
        reveal_strlit("bitcoin_blocks");
        reveal_strlit("bitcoin_difficulty");
        reveal_strlit("bitcoin_peers");
        reveal_strlit("bitcoin_conn_in");
        reveal_strlit("bitcoin_conn_out");
        reveal_strlit("bitcoin_warnings");
        reveal_strlit("bitcoin_meminfo_used");
        reveal_strlit("bitcoin_meminfo_free");
        reveal_strlit("bitcoin_meminfo_total");
        reveal_strlit("bitcoin_meminfo_locked");
        reveal_strlit("bitcoin_meminfo_chunks_used");
        reveal_strlit("bitcoin_meminfo_chunks_free");
        reveal_strlit("bitcoin_mempool_bytes");
        reveal_strlit("bitcoin_mempool_size");
        reveal_strlit("bitcoin_mempool_usage");
        reveal_strlit("bitcoin_mempool_unbroadcast");
        reveal_strlit("bitcoin_latest_block_height");
        reveal_strlit("bitcoin_latest_block_weight");
        reveal_strlit("bitcoin_latest_block_size");
        reveal_strlit("bitcoin_latest_block_txs");
        reveal_strlit("bitcoin_txcount");
        reveal_strlit("bitcoin_num_chaintips");
        reveal_strlit("bitcoin_total_bytes_recv");
        reveal_strlit("bitcoin_total_bytes_sent");
        reveal_strlit("bitcoin_latest_block_inputs");
        reveal_strlit("bitcoin_latest_block_outputs");
        reveal_strlit("bitcoin_latest_block_value");
        reveal_strlit("bitcoin_latest_block_fee");
        reveal_strlit("bitcoin_ban_created");
        reveal_strlit("bitcoin_banned_until");
        reveal_strlit("bitcoin_size_on_disk");
        reveal_strlit("bitcoin_verification_progress");
        reveal_strlit("bitcoin_hashps_neg1");
        reveal_strlit("bitcoin_hashps_1");
        reveal_strlit("bitcoin_hashps");
        reveal_strlit("bitcoin_est_smart_fee_2");
        reveal_strlit("bitcoin_est_smart_fee_3");
        reveal_strlit("bitcoin_est_smart_fee_5");
        reveal_strlit("bitcoin_est_smart_fee_20");
        assert("bitcoin_uptime"@.len() == 14);
        assert("bitcoin_blocks"@.len() == 14);
        assert("bitcoin_difficulty"@.len() == 18);
        assert("bitcoin_peers"@.len() == 13);
        assert("bitcoin_conn_in"@.len() == 15);
        assert("bitcoin_conn_out"@.len() == 16);
        assert("bitcoin_warnings"@.len() == 16);
        assert("bitcoin_meminfo_used"@.len() == 20);
        assert("bitcoin_meminfo_free"@.len() == 20);
        assert("bitcoin_meminfo_total"@.len() == 21);
        assert("bitcoin_meminfo_locked"@.len() == 22);
        assert("bitcoin_meminfo_chunks_used"@.len() == 27);
        assert("bitcoin_meminfo_chunks_free"@.len() == 27);
        assert("bitcoin_mempool_bytes"@.len() == 21);
        assert("bitcoin_mempool_size"@.len() == 20);
        assert("bitcoin_mempool_usage"@.len() == 21);
        assert("bitcoin_mempool_unbroadcast"@.len() == 27);
        assert("bitcoin_latest_block_height"@.len() == 27);
        assert("bitcoin_latest_block_weight"@.len() == 27);
        assert("bitcoin_latest_block_size"@.len() == 25);
        assert("bitcoin_latest_block_txs"@.len() == 24);
        assert("bitcoin_txcount"@.len() == 15);
        assert("bitcoin_num_chaintips"@.len() == 21);
        assert("bitcoin_total_bytes_recv"@.len() == 24);
        assert("bitcoin_total_bytes_sent"@.len() == 24);
        assert("bitcoin_latest_block_inputs"@.len() == 27);
        assert("bitcoin_latest_block_outputs"@.len() == 28);
        assert("bitcoin_latest_block_value"@.len() == 26);
        assert("bitcoin_latest_block_fee"@.len() == 24);
        assert("bitcoin_ban_created"@.len() == 19);
        assert("bitcoin_banned_until"@.len() == 20);
        assert("bitcoin_size_on_disk"@.len() == 20);
        assert("bitcoin_verification_progress"@.len() == 29);
        assert("bitcoin_hashps_neg1"@.len() == 19);
        assert("bitcoin_hashps_1"@.len() == 16);
        assert("bitcoin_hashps"@.len() == 14);
        assert("bitcoin_est_smart_fee_2"@.len() == 23);
        assert("bitcoin_est_smart_fee_3"@.len() == 23);
        assert("bitcoin_est_smart_fee_5"@.len() == 23);
        assert("bitcoin_est_smart_fee_20"@.len() == 24);
        assert("bitcoin_meminfo_used"@[8] != "bitcoin_banned_until"@[8]);
        assert("bitcoin_meminfo_free"@[8] != "bitcoin_banned_until"@[8]);
        assert("bitcoin_mempool_size"@[8] != "bitcoin_banned_until"@[8]);
        assert("bitcoin_meminfo_used"@[8] != "bitcoin_size_on_disk"@[8]);
        assert("bitcoin_meminfo_free"@[8] != "bitcoin_size_on_disk"@[8]);
        assert("bitcoin_mempool_size"@[8] != "bitcoin_size_on_disk"@[8]);
        assert("bitcoin_banned_until"@[8] != "bitcoin_size_on_disk"@[8]);
        assert("bitcoin_ban_created"@[8] != "bitcoin_hashps_neg1"@[8]);
        assert("bitcoin_conn_out"@[8] != "bitcoin_hashps_1"@[8]);
        assert("bitcoin_warnings"@[8] != "bitcoin_hashps_1"@[8]);
        assert("bitcoin_uptime"@[8] != "bitcoin_hashps"@[8]);
        assert("bitcoin_blocks"@[8] != "bitcoin_hashps"@[8]);
        assert("bitcoin_est_smart_fee_2"@[22] != "bitcoin_est_smart_fee_3"@[22]);
        assert("bitcoin_est_smart_fee_2"@[22] != "bitcoin_est_smart_fee_5"@[22]);
        assert("bitcoin_est_smart_fee_3"@[22] != "bitcoin_est_smart_fee_5"@[22]);
        assert("bitcoin_latest_block_txs"@[8] != "bitcoin_est_smart_fee_20"@[8]);
        assert("bitcoin_total_bytes_recv"@[8] != "bitcoin_est_smart_fee_20"@[8]);
        assert("bitcoin_total_bytes_sent"@[8] != "bitcoin_est_smart_fee_20"@[8]);
        assert("bitcoin_latest_block_fee"@[8] != "bitcoin_est_smart_fee_20"@[8]);
    }
    let mut ban_labels: Vec<String> = Vec::new();
    ban_labels.push("address".to_owned());
    ban_labels.push("reason".to_owned());
    proof {
        assert(ban_labels.deep_view() =~= seq!["address"@, "reason"@]);
    }
    let mut until_labels: Vec<String> = Vec::new();
    until_labels.push("address".to_owned());
    until_labels.push("reason".to_owned());
    proof {
        assert(until_labels.deep_view() =~= seq!["address"@, "reason"@]);
    }
    reg_labeled(r, "bitcoin_ban_created", "Time the ban was created", ban_labels);
    reg_labeled(r, "bitcoin_banned_until", "Time the ban expires", until_labels);
    reg_plain(
        r,
        "bitcoin_size_on_disk",
        "Estimated size of the block and undo files",
        MetricKind::Gauge,
    );
    reg_plain(
        r,
        "bitcoin_verification_progress",
        "Estimate of verification progress [0..1]",
        MetricKind::Gauge,
    );
    reg_plain(
        r,
        "bitcoin_hashps_neg1",
        "Estimated network hash rate per second since the last difficulty change",
        MetricKind::Gauge,
    );
    reg_plain(
        r,
        "bitcoin_hashps_1",
        "Estimated network hash rate per second for the last block",
        MetricKind::Gauge,
    );
    reg_plain(
        r,
        "bitcoin_hashps",
        "Estimated network hash rate per second for the last 120 blocks",
        MetricKind::Gauge,
    );
    reg_plain(
        r,
        "bitcoin_est_smart_fee_2",
        "Estimated smart fee per kilobyte for confirmation in 2 blocks",
        MetricKind::Gauge,
    );
    reg_plain(
        r,
        "bitcoin_est_smart_fee_3",
        "Estimated smart fee per kilobyte for confirmation in 3 blocks",
        MetricKind::Gauge,
    );
    reg_plain(
        r,
        "bitcoin_est_smart_fee_5",
        "Estimated smart fee per kilobyte for confirmation in 5 blocks",
        MetricKind::Gauge,
    );
    reg_plain(
        r,
        "bitcoin_est_smart_fee_20",
        "Estimated smart fee per kilobyte for confirmation in 20 blocks",
        MetricKind::Gauge,
    );
    proof {
        assert(r@ =~~= initial_metrics());
    }
}


/// A gauge write never changes any metric's descriptor, so the fixed layout
/// survives it.
pub proof fn lemma_set_value_shapes(
    r: Seq<MetricModel>,
    h: int,
    labels: Seq<Seq<char>>,
    v: ValueModel,
)
    requires
        shapes_ok(r),
        0 <= h < r.len(),
    ensures
        shapes_ok(set_value(r, h, labels, v)),
{
    let r2 = set_value(r, h, labels, v);
    assert forall|j: int|
        0 <= j < r.len() implies (#[trigger] r2[j]).name == r[j].name && r2[j].kind == r[j].kind
        && r2[j].label_names == r[j].label_names by {
        if j != h {
            assert(r2[j] == r[j]);
        }
    }
    assert(shapes_ok(r2));
}

/// A counter bump never changes any metric's descriptor either.
pub proof fn lemma_inc_value_shapes(r: Seq<MetricModel>, h: int, delta: u64)
    requires
        shapes_ok(r),
        0 <= h < r.len(),
    ensures
        shapes_ok(inc_value(r, h, delta)),
{
    let r2 = inc_value(r, h, delta);
    assert forall|j: int|
        0 <= j < r.len() implies (#[trigger] r2[j]).name == r[j].name && r2[j].kind == r[j].kind
        && r2[j].label_names == r[j].label_names by {
        if j != h {
            assert(r2[j] == r[j]);
        }
    }
    assert(shapes_ok(r2));
}

/// An optional integer reading: written to gauge `h` when present, skipped
/// when the call failed.
pub open spec fn apply_opt_int(r: Seq<MetricModel>, o: Option<u64>, h: int) -> Seq<MetricModel> {
    match o {
        Option::None => r,
        Option::Some(v) => set_value(r, h, Seq::empty(), ValueModel::Int(v)),
    }
}

/// An optional rendered reading: written to gauge `h` when present, skipped
/// when the call failed.
pub open spec fn apply_opt_text(r: Seq<MetricModel>, o: Option<String>, h: int) -> Seq<
    MetricModel,
> {
    match o {
        Option::None => r,
        Option::Some(s) => set_value(r, h, Seq::empty(), ValueModel::Text(s@)),
    }
}

/// What the latest-block statistics write: all eight gauges when the call
/// succeeded, nothing at all when it failed.
pub open spec fn apply_block_stats(r: Seq<MetricModel>, d: ScrapeData) -> Seq<MetricModel> {
    match d.latest_block_stats {
        Option::None => r,
        Option::Some(bs) => {
            let r1 = set_value(
                r,
                H_LATEST_BLOCK_SIZE as int,
                Seq::empty(),
                ValueModel::Int(bs.total_size),
            );
            let r2 = set_value(r1, H_LATEST_BLOCK_TXS as int, Seq::empty(), ValueModel::Int(bs.txs));
            let r3 = set_value(
                r2,
                H_LATEST_BLOCK_HEIGHT as int,
                Seq::empty(),
                ValueModel::Int(bs.height),
            );
            let r4 = set_value(
                r3,
                H_LATEST_BLOCK_WEIGHT as int,
                Seq::empty(),
                ValueModel::Int(bs.total_weight),
            );
            let r5 = set_value(
                r4,
                H_LATEST_BLOCK_INPUTS as int,
                Seq::empty(),
                ValueModel::Int(bs.ins),
            );
            let r6 = set_value(
                r5,
                H_LATEST_BLOCK_OUTPUTS as int,
                Seq::empty(),
                ValueModel::Int(bs.outs),
            );
            let r7 = set_value(
                r6,
                H_LATEST_BLOCK_VALUE as int,
                Seq::empty(),
                ValueModel::Text(bs.total_out@),
            );
            set_value(r7, H_LATEST_BLOCK_FEE as int, Seq::empty(), ValueModel::Text(bs.total_fee@))
        },
    }
}

/// The label tuple of the uptime gauge: software version, protocol version
/// and chain name.
pub open spec fn uptime_labels(ni: NetworkInfo, bi: BlockchainInfo) -> Seq<Seq<char>> {
    seq![decimal(ni.version as nat), decimal(ni.protocol_version as nat), bi.chain@]
}

/// What the blockchain-info part of the network collector writes: the uptime
/// gauge when all three prerequisite calls succeeded, then the chain gauges,
/// then the latest-block statistics.
pub open spec fn apply_blockchain_part(
    r: Seq<MetricModel>,
    ni: NetworkInfo,
    d: ScrapeData,
) -> Seq<MetricModel> {
    match d.blockchain_info {
        Option::None => r,
        Option::Some(bi) => {
            let r1 = match d.uptime {
                Option::None => r,
                Option::Some(u) => set_value(
                    r,
                    H_UPTIME as int,
                    uptime_labels(ni, bi),
                    ValueModel::Int(u),
                ),
            };
            let r2 = set_value(r1, H_BLOCKS as int, Seq::empty(), ValueModel::Int(bi.blocks));
            let r3 = set_value(
                r2,
                H_DIFFICULTY as int,
                Seq::empty(),
                ValueModel::Text(bi.difficulty@),
            );
            let r4 = set_value(
                r3,
                H_SIZE_ON_DISK as int,
                Seq::empty(),
                ValueModel::Int(bi.size_on_disk),
            );
            let r5 = set_value(
                r4,
                H_VERIFICATION_PROGRESS as int,
                Seq::empty(),
                ValueModel::Text(bi.verification_progress@),
            );
            apply_block_stats(r5, d)
        },
    }
}

/// What the network collector writes. Everything here is gated on the
/// network-info call; inside it, the chain gauges are gated on blockchain
/// info, the uptime gauge additionally on the uptime call, and the inbound
/// and outbound connection gauges on their optional sub-fields. The warning
/// counter grows exactly when the warning list is non-empty.
pub open spec fn apply_network(r: Seq<MetricModel>, d: ScrapeData) -> Seq<MetricModel> {
    match d.network_info {
        Option::None => r,
        Option::Some(ni) => {
            let r1 = apply_blockchain_part(r, ni, d);
            let r2 = set_value(r1, H_PEERS as int, Seq::empty(), ValueModel::Int(ni.connections));
            let r3 = match ni.connections_in {
                Option::None => r2,
                Option::Some(c) => set_value(r2, H_CONN_IN as int, Seq::empty(), ValueModel::Int(c)),
            };
            let r4 = match ni.connections_out {
                Option::None => r3,
                Option::Some(c) => set_value(
                    r3,
                    H_CONN_OUT as int,
                    Seq::empty(),
                    ValueModel::Int(c),
                ),
            };
            if ni.warnings@.len() > 0 {
                inc_value(r4, H_WARNINGS as int, 1)
            } else {
                r4
            }
        },
    }
}

/// What the fee collector writes: each horizon independently.
pub open spec fn apply_fees(r: Seq<MetricModel>, d: ScrapeData) -> Seq<MetricModel> {
    apply_opt_int(
        apply_opt_int(
            apply_opt_int(
                apply_opt_int(r, d.smart_fee_2, H_SMART_FEE_2 as int),
                d.smart_fee_3,
                H_SMART_FEE_3 as int,
            ),
            d.smart_fee_5,
            H_SMART_FEE_5 as int,
        ),
        d.smart_fee_20,
        H_SMART_FEE_20 as int,
    )
}

/// What the hash-rate collector writes: each window independently.
pub open spec fn apply_hash_rates(r: Seq<MetricModel>, d: ScrapeData) -> Seq<MetricModel> {
    apply_opt_text(
        apply_opt_text(
            apply_opt_text(r, d.hashps, H_HASHPS as int),
            d.hashps_neg1,
            H_HASHPS_NEG1 as int,
        ),
        d.hashps_1,
        H_HASHPS_1 as int,
    )
}

/// The label tuple of the two ban gauges: peer address and ban reason.
pub open spec fn ban_labels(b: BanEntry) -> Seq<Seq<char>> {
    seq![b.address@, "manually added"@]
}

/// What the ban collector writes from entry `i` on: every reported entry is
/// upserted into both ban gauges; entries no longer reported are left alone.
pub open spec fn apply_bans_from(r: Seq<MetricModel>, bans: Seq<BanEntry>, i: int) -> Seq<
    MetricModel,
>
    decreases bans.len() - i,
{
    if i < 0 || i >= bans.len() {
        r
    } else {
        let r1 = set_value(
            r,
            H_BAN_CREATED as int,
            ban_labels(bans[i]),
            ValueModel::Int(bans[i].ban_created),
        );
        let r2 = set_value(
            r1,
            H_BANNED_UNTIL as int,
            ban_labels(bans[i]),
            ValueModel::Int(bans[i].banned_until),
        );
        apply_bans_from(r2, bans, i + 1)
    }
}

/// What the ban collector writes.
pub open spec fn apply_bans(r: Seq<MetricModel>, d: ScrapeData) -> Seq<MetricModel> {
    match d.banned {
        Option::None => r,
        Option::Some(bans) => apply_bans_from(r, bans@, 0),
    }
}

/// What the chain transaction-count collector writes.
pub open spec fn apply_chain_tx(r: Seq<MetricModel>, d: ScrapeData) -> Seq<MetricModel> {
    apply_opt_int(r, d.chain_tx_count, H_TXCOUNT as int)
}

/// What the chain-tips collector writes.
pub open spec fn apply_chain_tips(r: Seq<MetricModel>, d: ScrapeData) -> Seq<MetricModel> {
    apply_opt_int(r, d.chain_tips_count, H_NUM_CHAINTIPS as int)
}

/// What the memory collector writes: all six gauges, gated together.
pub open spec fn apply_memory(r: Seq<MetricModel>, d: ScrapeData) -> Seq<MetricModel> {
    match d.memory_info {
        Option::None => r,
        Option::Some(mi) => {
            let r1 = set_value(r, H_MEMINFO_USED as int, Seq::empty(), ValueModel::Int(mi.used));
            let r2 = set_value(r1, H_MEMINFO_FREE as int, Seq::empty(), ValueModel::Int(mi.free));
            let r3 = set_value(r2, H_MEMINFO_TOTAL as int, Seq::empty(), ValueModel::Int(mi.total));
            let r4 = set_value(
                r3,
                H_MEMINFO_LOCKED as int,
                Seq::empty(),
                ValueModel::Int(mi.locked),
            );
            let r5 = set_value(
                r4,
                H_MEMINFO_CHUNKS_USED as int,
                Seq::empty(),
                ValueModel::Int(mi.chunks_used),
            );
            set_value(
                r5,
                H_MEMINFO_CHUNKS_FREE as int,
                Seq::empty(),
                ValueModel::Int(mi.chunks_free),
            )
        },
    }
}

/// What the mempool collector writes: the three always-present gauges, and
/// the unbroadcast count when the daemon reports it.
pub open spec fn apply_mempool(r: Seq<MetricModel>, d: ScrapeData) -> Seq<MetricModel> {
    match d.mempool_info {
        Option::None => r,
        Option::Some(mp) => {
            let r1 = set_value(r, H_MEMPOOL_BYTES as int, Seq::empty(), ValueModel::Int(mp.bytes));
            let r2 = set_value(r1, H_MEMPOOL_SIZE as int, Seq::empty(), ValueModel::Int(mp.size));
            let r3 = set_value(r2, H_MEMPOOL_USAGE as int, Seq::empty(), ValueModel::Int(mp.usage));
            apply_opt_int(r3, mp.unbroadcast, H_MEMPOOL_UNBROADCAST as int)
        },
    }
}

/// What the traffic collector writes: both totals, gated together.
pub open spec fn apply_net_totals(r: Seq<MetricModel>, d: ScrapeData) -> Seq<MetricModel> {
    match d.net_totals {
        Option::None => r,
        Option::Some(nt) => {
            let r1 = set_value(
                r,
                H_TOTAL_BYTES_RECV as int,
                Seq::empty(),
                ValueModel::Int(nt.total_bytes_recv),
            );
            set_value(
                r1,
                H_TOTAL_BYTES_SENT as int,
                Seq::empty(),
                ValueModel::Int(nt.total_bytes_sent),
            )
        },
    }
}

/// What one whole scrape does to the registry: the collectors run in their
/// fixed order, each writing only what its own calls delivered.
pub open spec fn apply_all(r: Seq<MetricModel>, d: ScrapeData) -> Seq<MetricModel> {
    apply_net_totals(
        apply_mempool(
            apply_memory(
                apply_chain_tips(
                    apply_chain_tx(
                        apply_bans(
                            apply_hash_rates(apply_fees(apply_network(r, d), d), d),
                            d,
                        ),
                        d,
                    ),
                    d,
                ),
                d,
            ),
            d,
        ),
        d,
    )
}

impl Exporter {
    /// Write an unlabeled gauge.
    fn set_plain(&mut self, h: usize, v: Value)
        requires
            old(self).wf(),
            h < METRIC_COUNT,
            old(self).registry@[h as int].kind is Gauge,
            old(self).registry@[h as int].label_names.len() == 0,
        ensures
            final(self).wf(),
            final(self).registry@ == set_value(old(self).registry@, h as int, Seq::empty(), v@),
    {
        let labels: Vec<String> = Vec::new();
        proof {
            assert(labels.deep_view() =~= Seq::<Seq<char>>::empty());
        }
        let ghost before = self.registry@;
        self.registry.set(h, labels, v);
        proof {
            lemma_set_value_shapes(before, h as int, Seq::empty(), v@);
        }
    }

    /// The network collector: one network-info call feeding the peer,
    /// connection and warning metrics, and gating the blockchain, uptime and
    /// latest-block writes.
    #[verifier::rlimit(100)]
    pub fn collect_network(&mut self, d: &ScrapeData)
        requires
            old(self).wf(),
        ensures
            final(self).wf(),
            final(self).registry@ == apply_network(old(self).registry@, *d),
    {
        if let Some(ni) = &d.network_info {
            if let Some(bi) = &d.blockchain_info {
                if let Some(u) = &d.uptime {
                    let mut labels: Vec<String> = Vec::new();
                    labels.push(u64_to_string(ni.version));
                    labels.push(u64_to_string(ni.protocol_version));
                    labels.push(bi.chain.clone());
                    proof {
                        assert(labels.deep_view() =~= uptime_labels(*ni, *bi));
                    }
                    let ghost before = self.registry@;
                    self.registry.set(H_UPTIME, labels, Value::Int(*u));
                    proof {
                        lemma_set_value_shapes(
                            before,
                            H_UPTIME as int,
                            uptime_labels(*ni, *bi),
                            ValueModel::Int(*u),
                        );
                    }
                }
                self.set_plain(H_BLOCKS, Value::Int(bi.blocks));
                self.set_plain(H_DIFFICULTY, Value::Text(bi.difficulty.clone()));
                self.set_plain(H_SIZE_ON_DISK, Value::Int(bi.size_on_disk));
                self.set_plain(H_VERIFICATION_PROGRESS, Value::Text(bi.verification_progress.clone()));
                if let Some(bs) = &d.latest_block_stats {
                    self.set_plain(H_LATEST_BLOCK_SIZE, Value::Int(bs.total_size));
                    self.set_plain(H_LATEST_BLOCK_TXS, Value::Int(bs.txs));
                    self.set_plain(H_LATEST_BLOCK_HEIGHT, Value::Int(bs.height));
                    self.set_plain(H_LATEST_BLOCK_WEIGHT, Value::Int(bs.total_weight));
                    self.set_plain(H_LATEST_BLOCK_INPUTS, Value::Int(bs.ins));
                    self.set_plain(H_LATEST_BLOCK_OUTPUTS, Value::Int(bs.outs));
                    self.set_plain(H_LATEST_BLOCK_VALUE, Value::Text(bs.total_out.clone()));
                    self.set_plain(H_LATEST_BLOCK_FEE, Value::Text(bs.total_fee.clone()));
                }
            }
            self.set_plain(H_PEERS, Value::Int(ni.connections));
            if let Some(c) = &ni.connections_in {
                self.set_plain(H_CONN_IN, Value::Int(*c));
            }
            if let Some(c) = &ni.connections_out {
                self.set_plain(H_CONN_OUT, Value::Int(*c));
            }
            if ni.warnings.len() > 0 {
                let ghost before = self.registry@;
                self.registry.inc(H_WARNINGS, 1);
                proof {
                    lemma_inc_value_shapes(before, H_WARNINGS as int, 1);
                }
            }
        }
    }

    /// The fee collector: four independent estimate calls; an absent estimate
    /// skips only its own gauge.
    pub fn collect_fees(&mut self, d: &ScrapeData)
        requires
            old(self).wf(),
        ensures
            final(self).wf(),
            final(self).registry@ == apply_fees(old(self).registry@, *d),
    {
        if let Some(f) = &d.smart_fee_2 {
            self.set_plain(H_SMART_FEE_2, Value::Int(*f));
        }
        if let Some(f) = &d.smart_fee_3 {
            self.set_plain(H_SMART_FEE_3, Value::Int(*f));
        }
        if let Some(f) = &d.smart_fee_5 {
            self.set_plain(H_SMART_FEE_5, Value::Int(*f));
        }
        if let Some(f) = &d.smart_fee_20 {
            self.set_plain(H_SMART_FEE_20, Value::Int(*f));
        }
    }

    /// The hash-rate collector: three independent window calls.
    pub fn collect_hash_rates(&mut self, d: &ScrapeData)
        requires
            old(self).wf(),
        ensures
            final(self).wf(),
            final(self).registry@ == apply_hash_rates(old(self).registry@, *d),
    {
        if let Some(h) = &d.hashps {
            self.set_plain(H_HASHPS, Value::Text(h.clone()));
        }
        if let Some(h) = &d.hashps_neg1 {
            self.set_plain(H_HASHPS_NEG1, Value::Text(h.clone()));
        }
        if let Some(h) = &d.hashps_1 {
            self.set_plain(H_HASHPS_1, Value::Text(h.clone()));
        }
    }

    /// The ban collector: upserts both ban gauges for every entry the daemon
    /// currently reports; tuples no longer reported are never removed.
    #[verifier::loop_isolation(false)]
    pub fn collect_bans(&mut self, d: &ScrapeData)
        requires
            old(self).wf(),
        ensures
            final(self).wf(),
            final(self).registry@ == apply_bans(old(self).registry@, *d),
    {
        if let Some(bans) = &d.banned {
            let n = bans.len();
            let mut i: usize = 0;
            while i < n
                invariant
                    0 <= i <= n,
                    n == bans@.len(),
                    self.wf(),
                    apply_bans_from(self.registry@, bans@, i as int) == apply_bans_from(
                        old(self).registry@,
                        bans@,
                        0,
                    ),
                decreases n - i,
            {
                let b = &bans[i];
                let mut created_labels: Vec<String> = Vec::new();
                created_labels.push(b.address.clone());
                created_labels.push("manually added".to_owned());
                proof {
                    assert(created_labels.deep_view() =~= ban_labels(bans@[i as int]));
                }
                let mut until_labels: Vec<String> = Vec::new();
                until_labels.push(b.address.clone());
                until_labels.push("manually added".to_owned());
                proof {
                    assert(until_labels.deep_view() =~= ban_labels(bans@[i as int]));
                }
                let ghost before = self.registry@;
                self.registry.set(H_BAN_CREATED, created_labels, Value::Int(b.ban_created));
                proof {
                    lemma_set_value_shapes(
                        before,
                        H_BAN_CREATED as int,
                        ban_labels(bans@[i as int]),
                        ValueModel::Int(b.ban_created),
                    );
                }
                let ghost mid = self.registry@;
                self.registry.set(H_BANNED_UNTIL, until_labels, Value::Int(b.banned_until));
                proof {
                    lemma_set_value_shapes(
                        mid,
                        H_BANNED_UNTIL as int,
                        ban_labels(bans@[i as int]),
                        ValueModel::Int(b.banned_until),
                    );
                    assert(apply_bans_from(self.registry@, bans@, i + 1) == apply_bans_from(
                        before,
                        bans@,
                        i as int,
                    ));
                }
                i += 1;
            }
        }
    }

    /// The chain transaction-count collector.
    pub fn collect_chain_tx(&mut self, d: &ScrapeData)
        requires
            old(self).wf(),
        ensures
            final(self).wf(),
            final(self).registry@ == apply_chain_tx(old(self).registry@, *d),
    {
        if let Some(c) = &d.chain_tx_count {
            self.set_plain(H_TXCOUNT, Value::Int(*c));
        }
    }

    /// The chain-tips collector.
    pub fn collect_chain_tips(&mut self, d: &ScrapeData)
        requires
            old(self).wf(),
        ensures
            final(self).wf(),
            final(self).registry@ == apply_chain_tips(old(self).registry@, *d),
    {
        if let Some(c) = &d.chain_tips_count {
            self.set_plain(H_NUM_CHAINTIPS, Value::Int(*c));
        }
    }

    /// The memory collector: one call feeding all six allocator gauges.
    pub fn collect_memory(&mut self, d: &ScrapeData)
        requires
            old(self).wf(),
        ensures
            final(self).wf(),
            final(self).registry@ == apply_memory(old(self).registry@, *d),
    {
        if let Some(mi) = &d.memory_info {
            self.set_plain(H_MEMINFO_USED, Value::Int(mi.used));
            self.set_plain(H_MEMINFO_FREE, Value::Int(mi.free));
            self.set_plain(H_MEMINFO_TOTAL, Value::Int(mi.total));
            self.set_plain(H_MEMINFO_LOCKED, Value::Int(mi.locked));
            self.set_plain(H_MEMINFO_CHUNKS_USED, Value::Int(mi.chunks_used));
            self.set_plain(H_MEMINFO_CHUNKS_FREE, Value::Int(mi.chunks_free));
        }
    }

    /// The mempool collector.
    pub fn collect_mempool(&mut self, d: &ScrapeData)
        requires
            old(self).wf(),
        ensures
            final(self).wf(),
            final(self).registry@ == apply_mempool(old(self).registry@, *d),
    {
        if let Some(mp) = &d.mempool_info {
            self.set_plain(H_MEMPOOL_BYTES, Value::Int(mp.bytes));
            self.set_plain(H_MEMPOOL_SIZE, Value::Int(mp.size));
            self.set_plain(H_MEMPOOL_USAGE, Value::Int(mp.usage));
            if let Some(u) = &mp.unbroadcast {
                self.set_plain(H_MEMPOOL_UNBROADCAST, Value::Int(*u));
            }
        }
    }

    /// The traffic collector.
    pub fn collect_net_totals(&mut self, d: &ScrapeData)
        requires
            old(self).wf(),
        ensures
            final(self).wf(),
            final(self).registry@ == apply_net_totals(old(self).registry@, *d),
    {
        if let Some(nt) = &d.net_totals {
            self.set_plain(H_TOTAL_BYTES_RECV, Value::Int(nt.total_bytes_recv));
            self.set_plain(H_TOTAL_BYTES_SENT, Value::Int(nt.total_bytes_sent));
        }
    }

    /// Run the whole collector set once, in its fixed order. Each collector
    /// is independent: whatever one call failed to deliver leaves its metrics
    /// untouched, and every other collector still runs.
    pub fn collect(&mut self, d: &ScrapeData)
        requires
            old(self).wf(),
        ensures
            final(self).wf(),
            final(self).registry@ == apply_all(old(self).registry@, *d),
    {
        self.collect_network(d);
        self.collect_fees(d);
        self.collect_hash_rates(d);
        self.collect_bans(d);
        self.collect_chain_tx(d);
        self.collect_chain_tips(d);
        self.collect_memory(d);
        self.collect_mempool(d);
        self.collect_net_totals(d);
    }
}


/// An unlabeled gauge write preserves well-formedness, the layout and every
/// sample.
proof fn lemma_plain_set_preserves(r: Seq<MetricModel>, h: int, v: ValueModel)
    requires
        registry_wf(r),
        shapes_ok(r),
        0 <= h < r.len(),
        r[h].kind is Gauge,
        r[h].label_names.len() == 0,
    ensures
        registry_wf(set_value(r, h, Seq::empty(), v)),
        shapes_ok(set_value(r, h, Seq::empty(), v)),
        samples_preserved(r, set_value(r, h, Seq::empty(), v)),
{
    lemma_set_value_preserves(r, h, Seq::empty(), v);
    lemma_set_value_shapes(r, h, Seq::empty(), v);
}

/// An optional integer write preserves everything a plain write does.
proof fn lemma_opt_int_preserves(r: Seq<MetricModel>, o: Option<u64>, h: int)
    requires
        registry_wf(r),
        shapes_ok(r),
        0 <= h < r.len(),
        r[h].kind is Gauge,
        r[h].label_names.len() == 0,
    ensures
        registry_wf(apply_opt_int(r, o, h)),
        shapes_ok(apply_opt_int(r, o, h)),
        samples_preserved(r, apply_opt_int(r, o, h)),
{
    match o {
        Option::None => {},
        Option::Some(v) => {
            lemma_plain_set_preserves(r, h, ValueModel::Int(v));
        },
    }
}

/// An optional rendered write preserves everything a plain write does.
proof fn lemma_opt_text_preserves(r: Seq<MetricModel>, o: Option<String>, h: int)
    requires
        registry_wf(r),
        shapes_ok(r),
        0 <= h < r.len(),
        r[h].kind is Gauge,
        r[h].label_names.len() == 0,
    ensures
        registry_wf(apply_opt_text(r, o, h)),
        shapes_ok(apply_opt_text(r, o, h)),
        samples_preserved(r, apply_opt_text(r, o, h)),
{
    match o {
        Option::None => {},
        Option::Some(s) => {
            lemma_plain_set_preserves(r, h, ValueModel::Text(s@));
        },
    }
}

/// The latest-block writes preserve well-formedness, the layout and every
/// sample.
proof fn lemma_block_stats_preserves(r: Seq<MetricModel>, d: ScrapeData)
    requires
        registry_wf(r),
        shapes_ok(r),
    ensures
        registry_wf(apply_block_stats(r, d)),
        shapes_ok(apply_block_stats(r, d)),
        samples_preserved(r, apply_block_stats(r, d)),
{
    match d.latest_block_stats {
        Option::None => {},
        Option::Some(bs) => {
            let r1 = set_value(r, H_LATEST_BLOCK_SIZE as int, Seq::empty(), ValueModel::Int(bs.total_size));
            let r2 = set_value(r1, H_LATEST_BLOCK_TXS as int, Seq::empty(), ValueModel::Int(bs.txs));
            let r3 = set_value(r2, H_LATEST_BLOCK_HEIGHT as int, Seq::empty(), ValueModel::Int(bs.height));
            let r4 = set_value(r3, H_LATEST_BLOCK_WEIGHT as int, Seq::empty(), ValueModel::Int(bs.total_weight));
            let r5 = set_value(r4, H_LATEST_BLOCK_INPUTS as int, Seq::empty(), ValueModel::Int(bs.ins));
            let r6 = set_value(r5, H_LATEST_BLOCK_OUTPUTS as int, Seq::empty(), ValueModel::Int(bs.outs));
            let r7 = set_value(r6, H_LATEST_BLOCK_VALUE as int, Seq::empty(), ValueModel::Text(bs.total_out@));
            lemma_plain_set_preserves(r, H_LATEST_BLOCK_SIZE as int, ValueModel::Int(bs.total_size));
            lemma_plain_set_preserves(r1, H_LATEST_BLOCK_TXS as int, ValueModel::Int(bs.txs));
            lemma_samples_preserved_trans(r, r1, r2);
            lemma_plain_set_preserves(r2, H_LATEST_BLOCK_HEIGHT as int, ValueModel::Int(bs.height));
            lemma_samples_preserved_trans(r, r2, r3);
            lemma_plain_set_preserves(r3, H_LATEST_BLOCK_WEIGHT as int, ValueModel::Int(bs.total_weight));
            lemma_samples_preserved_trans(r, r3, r4);
            lemma_plain_set_preserves(r4, H_LATEST_BLOCK_INPUTS as int, ValueModel::Int(bs.ins));
            lemma_samples_preserved_trans(r, r4, r5);
            lemma_plain_set_preserves(r5, H_LATEST_BLOCK_OUTPUTS as int, ValueModel::Int(bs.outs));
            lemma_samples_preserved_trans(r, r5, r6);
            lemma_plain_set_preserves(r6, H_LATEST_BLOCK_VALUE as int, ValueModel::Text(bs.total_out@));
            lemma_samples_preserved_trans(r, r6, r7);
            lemma_plain_set_preserves(r7, H_LATEST_BLOCK_FEE as int, ValueModel::Text(bs.total_fee@));
            lemma_samples_preserved_trans(r, r7, apply_block_stats(r, d));
        },
    }
}

/// The blockchain-gated writes preserve well-formedness, the layout and every
/// sample.
proof fn lemma_blockchain_part_preserves(r: Seq<MetricModel>, ni: NetworkInfo, d: ScrapeData)
    requires
        registry_wf(r),
        shapes_ok(r),
    ensures
        registry_wf(apply_blockchain_part(r, ni, d)),
        shapes_ok(apply_blockchain_part(r, ni, d)),
        samples_preserved(r, apply_blockchain_part(r, ni, d)),
{
    match d.blockchain_info {
        Option::None => {},
        Option::Some(bi) => {
            let r1 = match d.uptime {
                Option::None => r,
                Option::Some(u) => set_value(r, H_UPTIME as int, uptime_labels(ni, bi), ValueModel::Int(u)),
            };
            match d.uptime {
                Option::None => {},
                Option::Some(u) => {
                    assert(uptime_labels(ni, bi).len() == 3);
                    lemma_set_value_preserves(r, H_UPTIME as int, uptime_labels(ni, bi), ValueModel::Int(u));
                    lemma_set_value_shapes(r, H_UPTIME as int, uptime_labels(ni, bi), ValueModel::Int(u));
                },
            }
            let r2 = set_value(r1, H_BLOCKS as int, Seq::empty(), ValueModel::Int(bi.blocks));
            let r3 = set_value(r2, H_DIFFICULTY as int, Seq::empty(), ValueModel::Text(bi.difficulty@));
            let r4 = set_value(r3, H_SIZE_ON_DISK as int, Seq::empty(), ValueModel::Int(bi.size_on_disk));
            let r5 = set_value(r4, H_VERIFICATION_PROGRESS as int, Seq::empty(), ValueModel::Text(bi.verification_progress@));
            lemma_plain_set_preserves(r1, H_BLOCKS as int, ValueModel::Int(bi.blocks));
            lemma_samples_preserved_trans(r, r1, r2);
            lemma_plain_set_preserves(r2, H_DIFFICULTY as int, ValueModel::Text(bi.difficulty@));
            lemma_samples_preserved_trans(r, r2, r3);
            lemma_plain_set_preserves(r3, H_SIZE_ON_DISK as int, ValueModel::Int(bi.size_on_disk));
            lemma_samples_preserved_trans(r, r3, r4);
            lemma_plain_set_preserves(r4, H_VERIFICATION_PROGRESS as int, ValueModel::Text(bi.verification_progress@));
            lemma_samples_preserved_trans(r, r4, r5);
            lemma_block_stats_preserves(r5, d);
            lemma_samples_preserved_trans(r, r5, apply_block_stats(r5, d));
        },
    }
}

/// The network collector preserves well-formedness, the layout and every
/// sample, and never lowers the warning counter.
proof fn lemma_network_preserves(r: Seq<MetricModel>, d: ScrapeData)
    requires
        registry_wf(r),
        shapes_ok(r),
    ensures
        registry_wf(apply_network(r, d)),
        shapes_ok(apply_network(r, d)),
        samples_preserved(r, apply_network(r, d)),
        warning_count(apply_network(r, d)) >= warning_count(r),
{
    match d.network_info {
        Option::None => {},
        Option::Some(ni) => {
            let r1 = apply_blockchain_part(r, ni, d);
            lemma_blockchain_part_preserves(r, ni, d);
            let r2 = set_value(r1, H_PEERS as int, Seq::empty(), ValueModel::Int(ni.connections));
            lemma_plain_set_preserves(r1, H_PEERS as int, ValueModel::Int(ni.connections));
            lemma_samples_preserved_trans(r, r1, r2);
            let r3 = match ni.connections_in {
                Option::None => r2,
                Option::Some(c) => set_value(r2, H_CONN_IN as int, Seq::empty(), ValueModel::Int(c)),
            };
            lemma_opt_int_preserves(r2, ni.connections_in, H_CONN_IN as int);
            lemma_samples_preserved_trans(r, r2, r3);
            let r4 = match ni.connections_out {
                Option::None => r3,
                Option::Some(c) => set_value(r3, H_CONN_OUT as int, Seq::empty(), ValueModel::Int(c)),
            };
            lemma_opt_int_preserves(r3, ni.connections_out, H_CONN_OUT as int);
            lemma_samples_preserved_trans(r, r3, r4);
            assert(warning_count(r4) == warning_count(r)) by {
                lemma_blockchain_part_frame_warnings(r, ni, d);
            }
            if ni.warnings@.len() > 0 {
                lemma_inc_value_preserves(r4, H_WARNINGS as int, 1);
                lemma_inc_value_shapes(r4, H_WARNINGS as int, 1);
                lemma_samples_preserved_trans(r, r4, inc_value(r4, H_WARNINGS as int, 1));
                assert(metric_wf(r4[H_WARNINGS as int]));
            }
        },
    }
}

/// The blockchain-gated writes never touch the warning counter.
proof fn lemma_blockchain_part_frame_warnings(r: Seq<MetricModel>, ni: NetworkInfo, d: ScrapeData)
    requires
        r.len() == METRIC_COUNT,
    ensures
        apply_blockchain_part(r, ni, d).len() == r.len(),
        apply_blockchain_part(r, ni, d)[H_WARNINGS as int] == r[H_WARNINGS as int],
{
}

/// The warning counter's current value.
pub open spec fn warning_count(r: Seq<MetricModel>) -> u64 {
    match r[H_WARNINGS as int].samples[0].value {
        ValueModel::Int(n) => n,
        ValueModel::Text(_) => 0,
    }
}

/// The fee collector preserves well-formedness, the layout and every sample.
proof fn lemma_fees_preserves(r: Seq<MetricModel>, d: ScrapeData)
    requires
        registry_wf(r),
        shapes_ok(r),
    ensures
        registry_wf(apply_fees(r, d)),
        shapes_ok(apply_fees(r, d)),
        samples_preserved(r, apply_fees(r, d)),
{
    let r1 = apply_opt_int(r, d.smart_fee_2, H_SMART_FEE_2 as int);
    let r2 = apply_opt_int(r1, d.smart_fee_3, H_SMART_FEE_3 as int);
    let r3 = apply_opt_int(r2, d.smart_fee_5, H_SMART_FEE_5 as int);
    lemma_opt_int_preserves(r, d.smart_fee_2, H_SMART_FEE_2 as int);
    lemma_opt_int_preserves(r1, d.smart_fee_3, H_SMART_FEE_3 as int);
    lemma_samples_preserved_trans(r, r1, r2);
    lemma_opt_int_preserves(r2, d.smart_fee_5, H_SMART_FEE_5 as int);
    lemma_samples_preserved_trans(r, r2, r3);
    lemma_opt_int_preserves(r3, d.smart_fee_20, H_SMART_FEE_20 as int);
    lemma_samples_preserved_trans(r, r3, apply_fees(r, d));
}

/// The hash-rate collector preserves well-formedness, the layout and every
/// sample.
proof fn lemma_hash_rates_preserves(r: Seq<MetricModel>, d: ScrapeData)
    requires
        registry_wf(r),
        shapes_ok(r),
    ensures
        registry_wf(apply_hash_rates(r, d)),
        shapes_ok(apply_hash_rates(r, d)),
        samples_preserved(r, apply_hash_rates(r, d)),
{
    let r1 = apply_opt_text(r, d.hashps, H_HASHPS as int);
    let r2 = apply_opt_text(r1, d.hashps_neg1, H_HASHPS_NEG1 as int);
    lemma_opt_text_preserves(r, d.hashps, H_HASHPS as int);
    lemma_opt_text_preserves(r1, d.hashps_neg1, H_HASHPS_NEG1 as int);
    lemma_samples_preserved_trans(r, r1, r2);
    lemma_opt_text_preserves(r2, d.hashps_1, H_HASHPS_1 as int);
    lemma_samples_preserved_trans(r, r2, apply_hash_rates(r, d));
}

/// The ban writes from entry `i` on preserve well-formedness, the layout and
/// every sample.
proof fn lemma_bans_from_preserves(r: Seq<MetricModel>, bans: Seq<BanEntry>, i: int)
    requires
        registry_wf(r),
        shapes_ok(r),
    ensures
        registry_wf(apply_bans_from(r, bans, i)),
        shapes_ok(apply_bans_from(r, bans, i)),
        samples_preserved(r, apply_bans_from(r, bans, i)),
    decreases bans.len() - i,
{
    if 0 <= i < bans.len() {
        let ls = ban_labels(bans[i]);
        assert(ls.len() == 2);
        let r1 = set_value(r, H_BAN_CREATED as int, ls, ValueModel::Int(bans[i].ban_created));
        lemma_set_value_preserves(r, H_BAN_CREATED as int, ls, ValueModel::Int(bans[i].ban_created));
        lemma_set_value_shapes(r, H_BAN_CREATED as int, ls, ValueModel::Int(bans[i].ban_created));
        let r2 = set_value(r1, H_BANNED_UNTIL as int, ls, ValueModel::Int(bans[i].banned_until));
        lemma_set_value_preserves(r1, H_BANNED_UNTIL as int, ls, ValueModel::Int(bans[i].banned_until));
        lemma_set_value_shapes(r1, H_BANNED_UNTIL as int, ls, ValueModel::Int(bans[i].banned_until));
        lemma_samples_preserved_trans(r, r1, r2);
        lemma_bans_from_preserves(r2, bans, i + 1);
        lemma_samples_preserved_trans(r, r2, apply_bans_from(r2, bans, i + 1));
    }
}

/// The ban collector preserves well-formedness, the layout and every sample.
proof fn lemma_bans_preserves(r: Seq<MetricModel>, d: ScrapeData)
    requires
        registry_wf(r),
        shapes_ok(r),
    ensures
        registry_wf(apply_bans(r, d)),
        shapes_ok(apply_bans(r, d)),
        samples_preserved(r, apply_bans(r, d)),
{
    match d.banned {
        Option::None => {},
        Option::Some(bans) => {
            lemma_bans_from_preserves(r, bans@, 0);
        },
    }
}

/// The memory collector preserves well-formedness, the layout and every
/// sample.
proof fn lemma_memory_preserves(r: Seq<MetricModel>, d: ScrapeData)
    requires
        registry_wf(r),
        shapes_ok(r),
    ensures
        registry_wf(apply_memory(r, d)),
        shapes_ok(apply_memory(r, d)),
        samples_preserved(r, apply_memory(r, d)),
{
    match d.memory_info {
        Option::None => {},
        Option::Some(mi) => {
            let r1 = set_value(r, H_MEMINFO_USED as int, Seq::empty(), ValueModel::Int(mi.used));
            let r2 = set_value(r1, H_MEMINFO_FREE as int, Seq::empty(), ValueModel::Int(mi.free));
            let r3 = set_value(r2, H_MEMINFO_TOTAL as int, Seq::empty(), ValueModel::Int(mi.total));
            let r4 = set_value(r3, H_MEMINFO_LOCKED as int, Seq::empty(), ValueModel::Int(mi.locked));
            let r5 = set_value(r4, H_MEMINFO_CHUNKS_USED as int, Seq::empty(), ValueModel::Int(mi.chunks_used));
            lemma_plain_set_preserves(r, H_MEMINFO_USED as int, ValueModel::Int(mi.used));
            lemma_plain_set_preserves(r1, H_MEMINFO_FREE as int, ValueModel::Int(mi.free));
            lemma_samples_preserved_trans(r, r1, r2);
            lemma_plain_set_preserves(r2, H_MEMINFO_TOTAL as int, ValueModel::Int(mi.total));
            lemma_samples_preserved_trans(r, r2, r3);
            lemma_plain_set_preserves(r3, H_MEMINFO_LOCKED as int, ValueModel::Int(mi.locked));
            lemma_samples_preserved_trans(r, r3, r4);
            lemma_plain_set_preserves(r4, H_MEMINFO_CHUNKS_USED as int, ValueModel::Int(mi.chunks_used));
            lemma_samples_preserved_trans(r, r4, r5);
            lemma_plain_set_preserves(r5, H_MEMINFO_CHUNKS_FREE as int, ValueModel::Int(mi.chunks_free));
            lemma_samples_preserved_trans(r, r5, apply_memory(r, d));
        },
    }
}

/// The mempool collector preserves well-formedness, the layout and every
/// sample.
proof fn lemma_mempool_preserves(r: Seq<MetricModel>, d: ScrapeData)
    requires
        registry_wf(r),
        shapes_ok(r),
    ensures
        registry_wf(apply_mempool(r, d)),
        shapes_ok(apply_mempool(r, d)),
        samples_preserved(r, apply_mempool(r, d)),
{
    match d.mempool_info {
        Option::None => {},
        Option::Some(mp) => {
            let r1 = set_value(r, H_MEMPOOL_BYTES as int, Seq::empty(), ValueModel::Int(mp.bytes));
            let r2 = set_value(r1, H_MEMPOOL_SIZE as int, Seq::empty(), ValueModel::Int(mp.size));
            let r3 = set_value(r2, H_MEMPOOL_USAGE as int, Seq::empty(), ValueModel::Int(mp.usage));
            lemma_plain_set_preserves(r, H_MEMPOOL_BYTES as int, ValueModel::Int(mp.bytes));
            lemma_plain_set_preserves(r1, H_MEMPOOL_SIZE as int, ValueModel::Int(mp.size));
            lemma_samples_preserved_trans(r, r1, r2);
            lemma_plain_set_preserves(r2, H_MEMPOOL_USAGE as int, ValueModel::Int(mp.usage));
            lemma_samples_preserved_trans(r, r2, r3);
            lemma_opt_int_preserves(r3, mp.unbroadcast, H_MEMPOOL_UNBROADCAST as int);
            lemma_samples_preserved_trans(r, r3, apply_mempool(r, d));
        },
    }
}

/// The traffic collector preserves well-formedness, the layout and every
/// sample.
proof fn lemma_net_totals_preserves(r: Seq<MetricModel>, d: ScrapeData)
    requires
        registry_wf(r),
        shapes_ok(r),
    ensures
        registry_wf(apply_net_totals(r, d)),
        shapes_ok(apply_net_totals(r, d)),
        samples_preserved(r, apply_net_totals(r, d)),
{
    match d.net_totals {
        Option::None => {},
        Option::Some(nt) => {
            let r1 = set_value(r, H_TOTAL_BYTES_RECV as int, Seq::empty(), ValueModel::Int(nt.total_bytes_recv));
            lemma_plain_set_preserves(r, H_TOTAL_BYTES_RECV as int, ValueModel::Int(nt.total_bytes_recv));
            lemma_plain_set_preserves(r1, H_TOTAL_BYTES_SENT as int, ValueModel::Int(nt.total_bytes_sent));
            lemma_samples_preserved_trans(r, r1, apply_net_totals(r, d));
        },
    }
}

/// One whole scrape keeps the registry well formed, keeps the fixed layout,
/// and never removes a metric or a sample: every label tuple ever written is
/// still there afterwards, so label-tuple cardinality never decreases.
pub proof fn lemma_scrape_preserves(r: Seq<MetricModel>, d: ScrapeData)
    requires
        registry_wf(r),
        shapes_ok(r),
    ensures
        registry_wf(apply_all(r, d)),
        shapes_ok(apply_all(r, d)),
        samples_preserved(r, apply_all(r, d)),
{
    let r1 = apply_network(r, d);
    let r2 = apply_fees(r1, d);
    let r3 = apply_hash_rates(r2, d);
    let r4 = apply_bans(r3, d);
    let r5 = apply_chain_tx(r4, d);
    let r6 = apply_chain_tips(r5, d);
    let r7 = apply_memory(r6, d);
    let r8 = apply_mempool(r7, d);
    lemma_network_preserves(r, d);
    lemma_fees_preserves(r1, d);
    lemma_samples_preserved_trans(r, r1, r2);
    lemma_hash_rates_preserves(r2, d);
    lemma_samples_preserved_trans(r, r2, r3);
    lemma_bans_preserves(r3, d);
    lemma_samples_preserved_trans(r, r3, r4);
    lemma_opt_int_preserves(r4, d.chain_tx_count, H_TXCOUNT as int);
    lemma_samples_preserved_trans(r, r4, r5);
    lemma_opt_int_preserves(r5, d.chain_tips_count, H_NUM_CHAINTIPS as int);
    lemma_samples_preserved_trans(r, r5, r6);
    lemma_memory_preserves(r6, d);
    lemma_samples_preserved_trans(r, r6, r7);
    lemma_mempool_preserves(r7, d);
    lemma_samples_preserved_trans(r, r7, r8);
    lemma_net_totals_preserves(r8, d);
    lemma_samples_preserved_trans(r, r8, apply_all(r, d));
}

/// The gauges only the latest-block statistics write.
pub open spec fn block_stats_touched(j: int) -> bool {
    ||| j == H_LATEST_BLOCK_SIZE as int
    ||| j == H_LATEST_BLOCK_TXS as int
    ||| j == H_LATEST_BLOCK_HEIGHT as int
    ||| j == H_LATEST_BLOCK_WEIGHT as int
    ||| j == H_LATEST_BLOCK_INPUTS as int
    ||| j == H_LATEST_BLOCK_OUTPUTS as int
    ||| j == H_LATEST_BLOCK_VALUE as int
    ||| j == H_LATEST_BLOCK_FEE as int
}

/// The metrics only the blockchain-gated writes may touch.
pub open spec fn blockchain_part_touched(j: int) -> bool {
    ||| j == H_UPTIME as int
    ||| j == H_BLOCKS as int
    ||| j == H_DIFFICULTY as int
    ||| j == H_SIZE_ON_DISK as int
    ||| j == H_VERIFICATION_PROGRESS as int
    ||| block_stats_touched(j)
}

/// The metrics only the network collector may touch.
pub open spec fn network_touched(j: int) -> bool {
    ||| blockchain_part_touched(j)
    ||| j == H_PEERS as int
    ||| j == H_CONN_IN as int
    ||| j == H_CONN_OUT as int
    ||| j == H_WARNINGS as int
}

/// The blockchain-gated writes change nothing outside their own gauges, and
/// leave even those alone when their gating calls failed.
proof fn lemma_blockchain_part_frame(r: Seq<MetricModel>, ni: NetworkInfo, d: ScrapeData)
    requires
        r.len() == METRIC_COUNT,
    ensures
        apply_blockchain_part(r, ni, d).len() == r.len(),
        forall|j: int|
            0 <= j < r.len() && !blockchain_part_touched(j) ==> apply_blockchain_part(r, ni, d)[j]
                == r[j],
        d.uptime is None ==> apply_blockchain_part(r, ni, d)[H_UPTIME as int] == r[
            H_UPTIME as int
        ],
        d.latest_block_stats is None ==> forall|j: int|
            0 <= j < r.len() && block_stats_touched(j) ==> apply_blockchain_part(r, ni, d)[j]
                == r[j],
{
}

/// The network collector changes nothing outside its own metrics, and leaves
/// even those alone when the call or sub-field that feeds them is missing.
proof fn lemma_network_frame(r: Seq<MetricModel>, d: ScrapeData)
    requires
        r.len() == METRIC_COUNT,
    ensures
        apply_network(r, d).len() == r.len(),
        forall|j: int|
            0 <= j < r.len() && !network_touched(j) ==> apply_network(r, d)[j] == r[j],
        d.network_info is None ==> apply_network(r, d) == r,
        d.uptime is None ==> apply_network(r, d)[H_UPTIME as int] == r[H_UPTIME as int],
        d.blockchain_info is None ==> forall|j: int|
            0 <= j < r.len() && blockchain_part_touched(j) ==> apply_network(r, d)[j] == r[j],
        d.latest_block_stats is None ==> forall|j: int|
            0 <= j < r.len() && block_stats_touched(j) ==> apply_network(r, d)[j] == r[j],
        d.network_info matches Some(ni) && ni.connections_in is None ==> apply_network(r, d)[
            H_CONN_IN as int
        ] == r[H_CONN_IN as int],
        d.network_info matches Some(ni) && ni.connections_out is None ==> apply_network(r, d)[
            H_CONN_OUT as int
        ] == r[H_CONN_OUT as int],
        d.network_info matches Some(ni) && ni.warnings@.len() == 0 ==> apply_network(r, d)[
            H_WARNINGS as int
        ] == r[H_WARNINGS as int],
{
    match d.network_info {
        Option::None => {},
        Option::Some(ni) => {
            lemma_blockchain_part_frame(r, ni, d);
        },
    }
}

/// The fee collector changes nothing outside the four fee gauges, and leaves
/// each alone when its own estimate is missing.
proof fn lemma_fees_frame(r: Seq<MetricModel>, d: ScrapeData)
    requires
        r.len() == METRIC_COUNT,
    ensures
        apply_fees(r, d).len() == r.len(),
        forall|j: int|
            0 <= j < r.len() && j != H_SMART_FEE_2 as int && j != H_SMART_FEE_3 as int && j
                != H_SMART_FEE_5 as int && j != H_SMART_FEE_20 as int ==> apply_fees(r, d)[j]
                == r[j],
        d.smart_fee_2 is None ==> apply_fees(r, d)[H_SMART_FEE_2 as int] == r[H_SMART_FEE_2 as int],
        d.smart_fee_3 is None ==> apply_fees(r, d)[H_SMART_FEE_3 as int] == r[H_SMART_FEE_3 as int],
        d.smart_fee_5 is None ==> apply_fees(r, d)[H_SMART_FEE_5 as int] == r[H_SMART_FEE_5 as int],
        d.smart_fee_20 is None ==> apply_fees(r, d)[H_SMART_FEE_20 as int] == r[
            H_SMART_FEE_20 as int
        ],
{
}

/// The hash-rate collector changes nothing outside the three window gauges,
/// and leaves each alone when its own call failed.
proof fn lemma_hash_rates_frame(r: Seq<MetricModel>, d: ScrapeData)
    requires
        r.len() == METRIC_COUNT,
    ensures
        apply_hash_rates(r, d).len() == r.len(),
        forall|j: int|
            0 <= j < r.len() && j != H_HASHPS as int && j != H_HASHPS_NEG1 as int && j
                != H_HASHPS_1 as int ==> apply_hash_rates(r, d)[j] == r[j],
        d.hashps is None ==> apply_hash_rates(r, d)[H_HASHPS as int] == r[H_HASHPS as int],
        d.hashps_neg1 is None ==> apply_hash_rates(r, d)[H_HASHPS_NEG1 as int] == r[
            H_HASHPS_NEG1 as int
        ],
        d.hashps_1 is None ==> apply_hash_rates(r, d)[H_HASHPS_1 as int] == r[H_HASHPS_1 as int],
{
}

/// The ban writes change nothing outside the two ban gauges.
proof fn lemma_bans_from_frame(r: Seq<MetricModel>, bans: Seq<BanEntry>, i: int)
    requires
        r.len() == METRIC_COUNT,
    ensures
        apply_bans_from(r, bans, i).len() == r.len(),
        forall|j: int|
            0 <= j < r.len() && j != H_BAN_CREATED as int && j != H_BANNED_UNTIL as int
                ==> apply_bans_from(r, bans, i)[j] == r[j],
    decreases bans.len() - i,
{
    if 0 <= i < bans.len() {
        let ls = ban_labels(bans[i]);
        let r1 = set_value(r, H_BAN_CREATED as int, ls, ValueModel::Int(bans[i].ban_created));
        let r2 = set_value(r1, H_BANNED_UNTIL as int, ls, ValueModel::Int(bans[i].banned_until));
        lemma_bans_from_frame(r2, bans, i + 1);
        assert forall|j: int|
            0 <= j < r.len() && j != H_BAN_CREATED as int && j != H_BANNED_UNTIL as int implies
            apply_bans_from(r, bans, i)[j] == r[j] by {
            assert(apply_bans_from(r2, bans, i + 1)[j] == r2[j]);
            assert(r2[j] == r1[j]);
            assert(r1[j] == r[j]);
        }
    }
}

/// The ban collector changes nothing outside the two ban gauges, and leaves
/// even those alone when the call failed.
proof fn lemma_bans_frame(r: Seq<MetricModel>, d: ScrapeData)
    requires
        r.len() == METRIC_COUNT,
    ensures
        apply_bans(r, d).len() == r.len(),
        forall|j: int|
            0 <= j < r.len() && j != H_BAN_CREATED as int && j != H_BANNED_UNTIL as int
                ==> apply_bans(r, d)[j] == r[j],
        d.banned is None ==> apply_bans(r, d) == r,
{
    match d.banned {
        Option::None => {},
        Option::Some(bans) => {
            lemma_bans_from_frame(r, bans@, 0);
        },
    }
}

/// The memory collector changes nothing outside the six allocator gauges.
proof fn lemma_memory_frame(r: Seq<MetricModel>, d: ScrapeData)
    requires
        r.len() == METRIC_COUNT,
    ensures
        apply_memory(r, d).len() == r.len(),
        forall|j: int|
            0 <= j < r.len() && !(H_MEMINFO_USED as int <= j <= H_MEMINFO_CHUNKS_FREE as int)
                ==> apply_memory(r, d)[j] == r[j],
        d.memory_info is None ==> apply_memory(r, d) == r,
{
}

/// The mempool collector changes nothing outside its four gauges, and leaves
/// the unbroadcast gauge alone when the daemon omits that field.
proof fn lemma_mempool_frame(r: Seq<MetricModel>, d: ScrapeData)
    requires
        r.len() == METRIC_COUNT,
    ensures
        apply_mempool(r, d).len() == r.len(),
        forall|j: int|
            0 <= j < r.len() && !(H_MEMPOOL_BYTES as int <= j <= H_MEMPOOL_UNBROADCAST as int)
                ==> apply_mempool(r, d)[j] == r[j],
        d.mempool_info is None ==> apply_mempool(r, d) == r,
        d.mempool_info matches Some(mp) && mp.unbroadcast is None ==> apply_mempool(r, d)[
            H_MEMPOOL_UNBROADCAST as int
        ] == r[H_MEMPOOL_UNBROADCAST as int],
{
}

/// The traffic collector changes nothing outside its two gauges.
proof fn lemma_net_totals_frame(r: Seq<MetricModel>, d: ScrapeData)
    requires
        r.len() == METRIC_COUNT,
    ensures
        apply_net_totals(r, d).len() == r.len(),
        forall|j: int|
            0 <= j < r.len() && j != H_TOTAL_BYTES_RECV as int && j != H_TOTAL_BYTES_SENT as int
                ==> apply_net_totals(r, d)[j] == r[j],
        d.net_totals is None ==> apply_net_totals(r, d) == r,
{
}


/// An optional integer write changes nothing outside its own gauge, and not
/// even that when the reading is missing.
proof fn lemma_opt_int_frame(r: Seq<MetricModel>, o: Option<u64>, h: int)
    requires
        0 <= h < r.len(),
    ensures
        apply_opt_int(r, o, h).len() == r.len(),
        forall|j: int| 0 <= j < r.len() && j != h ==> apply_opt_int(r, o, h)[j] == r[j],
        o is None ==> apply_opt_int(r, o, h) == r,
{
}

/// A collector whose call failed leaves every metric it is responsible for
/// exactly as it was before the scrape: no zeroing, no removal, only
/// staleness. Stated clause by clause: each missing result pins the metrics
/// it would have fed to their old values, whatever else the scrape wrote.
#[verifier::rlimit(100)]
pub proof fn lemma_failed_calls_leave_stale(r: Seq<MetricModel>, d: ScrapeData)
    requires
        registry_wf(r),
        shapes_ok(r),
    ensures
        d.network_info is None ==> forall|j: int|
            0 <= j < r.len() && network_touched(j) ==> apply_all(r, d)[j] == r[j],
        d.blockchain_info is None ==> forall|j: int|
            0 <= j < r.len() && blockchain_part_touched(j) ==> apply_all(r, d)[j] == r[j],
        d.uptime is None ==> apply_all(r, d)[H_UPTIME as int] == r[H_UPTIME as int],
        d.latest_block_stats is None ==> forall|j: int|
            0 <= j < r.len() && block_stats_touched(j) ==> apply_all(r, d)[j] == r[j],
        d.network_info matches Some(ni) && ni.connections_in is None ==> apply_all(r, d)[
            H_CONN_IN as int
        ] == r[H_CONN_IN as int],
        d.network_info matches Some(ni) && ni.connections_out is None ==> apply_all(r, d)[
            H_CONN_OUT as int
        ] == r[H_CONN_OUT as int],
        d.network_info matches Some(ni) && ni.warnings@.len() == 0 ==> apply_all(r, d)[
            H_WARNINGS as int
        ] == r[H_WARNINGS as int],
        d.smart_fee_2 is None ==> apply_all(r, d)[H_SMART_FEE_2 as int] == r[H_SMART_FEE_2 as int],
        d.smart_fee_3 is None ==> apply_all(r, d)[H_SMART_FEE_3 as int] == r[H_SMART_FEE_3 as int],
        d.smart_fee_5 is None ==> apply_all(r, d)[H_SMART_FEE_5 as int] == r[H_SMART_FEE_5 as int],
        d.smart_fee_20 is None ==> apply_all(r, d)[H_SMART_FEE_20 as int] == r[
            H_SMART_FEE_20 as int
        ],
        d.hashps is None ==> apply_all(r, d)[H_HASHPS as int] == r[H_HASHPS as int],
        d.hashps_neg1 is None ==> apply_all(r, d)[H_HASHPS_NEG1 as int] == r[H_HASHPS_NEG1 as int],
        d.hashps_1 is None ==> apply_all(r, d)[H_HASHPS_1 as int] == r[H_HASHPS_1 as int],
        d.banned is None ==> apply_all(r, d)[H_BAN_CREATED as int] == r[H_BAN_CREATED as int]
            && apply_all(r, d)[H_BANNED_UNTIL as int] == r[H_BANNED_UNTIL as int],
        d.chain_tx_count is None ==> apply_all(r, d)[H_TXCOUNT as int] == r[H_TXCOUNT as int],
        d.chain_tips_count is None ==> apply_all(r, d)[H_NUM_CHAINTIPS as int] == r[
            H_NUM_CHAINTIPS as int
        ],
        d.memory_info is None ==> forall|j: int|
            0 <= j < r.len() && H_MEMINFO_USED as int <= j <= H_MEMINFO_CHUNKS_FREE as int
                ==> apply_all(r, d)[j] == r[j],
        d.mempool_info is None ==> forall|j: int|
            0 <= j < r.len() && H_MEMPOOL_BYTES as int <= j <= H_MEMPOOL_UNBROADCAST as int
                ==> apply_all(r, d)[j] == r[j],
        d.mempool_info matches Some(mp) && mp.unbroadcast is None ==> apply_all(r, d)[
            H_MEMPOOL_UNBROADCAST as int
        ] == r[H_MEMPOOL_UNBROADCAST as int],
        d.net_totals is None ==> apply_all(r, d)[H_TOTAL_BYTES_RECV as int] == r[
            H_TOTAL_BYTES_RECV as int
        ] && apply_all(r, d)[H_TOTAL_BYTES_SENT as int] == r[H_TOTAL_BYTES_SENT as int],
{
    let r1 = apply_network(r, d);
    let r2 = apply_fees(r1, d);
    let r3 = apply_hash_rates(r2, d);
    let r4 = apply_bans(r3, d);
    let r5 = apply_chain_tx(r4, d);
    let r6 = apply_chain_tips(r5, d);
    let r7 = apply_memory(r6, d);
    let r8 = apply_mempool(r7, d);
    lemma_network_frame(r, d);
    lemma_fees_frame(r1, d);
    lemma_hash_rates_frame(r2, d);
    lemma_bans_frame(r3, d);
    lemma_opt_int_frame(r4, d.chain_tx_count, H_TXCOUNT as int);
    lemma_opt_int_frame(r5, d.chain_tips_count, H_NUM_CHAINTIPS as int);
    lemma_memory_frame(r6, d);
    lemma_mempool_frame(r7, d);
    lemma_net_totals_frame(r8, d);
    if d.chain_tx_count is None {
        let j = H_TXCOUNT as int;
        assert(r5 == r4);
        assert(r1[j] == r[j] && r2[j] == r1[j] && r3[j] == r2[j] && r4[j] == r3[j]);
        assert(r6[j] == r5[j] && r7[j] == r6[j] && r8[j] == r7[j]);
        assert(apply_all(r, d)[j] == r8[j]);
    }
    if d.chain_tips_count is None {
        let j = H_NUM_CHAINTIPS as int;
        assert(r6 == r5);
        assert(r1[j] == r[j] && r2[j] == r1[j] && r3[j] == r2[j] && r4[j] == r3[j]);
        assert(r5[j] == r4[j] && r7[j] == r6[j] && r8[j] == r7[j]);
        assert(apply_all(r, d)[j] == r8[j]);
    }
    if d.mempool_info matches Some(mp) && mp.unbroadcast is None {
        let j = H_MEMPOOL_UNBROADCAST as int;
        assert(r1[j] == r[j] && r2[j] == r1[j] && r3[j] == r2[j] && r4[j] == r3[j]);
        assert(r5[j] == r4[j] && r6[j] == r5[j] && r7[j] == r6[j]);
        assert(r8[j] == r7[j]);
        assert(apply_all(r, d)[j] == r8[j]);
    }
    if d.memory_info is None {
        assert(r7 == r6);
        assert forall|j: int|
            0 <= j < r.len() && H_MEMINFO_USED as int <= j <= H_MEMINFO_CHUNKS_FREE as int implies
            apply_all(r, d)[j] == r[j] by {
            assert(r1[j] == r[j] && r2[j] == r1[j] && r3[j] == r2[j] && r4[j] == r3[j]);
            assert(r5[j] == r4[j] && r6[j] == r5[j] && r8[j] == r7[j]);
            assert(apply_all(r, d)[j] == r8[j]);
        }
    }
    if d.mempool_info is None {
        assert(r8 == r7);
        assert forall|j: int|
            0 <= j < r.len() && H_MEMPOOL_BYTES as int <= j <= H_MEMPOOL_UNBROADCAST as int implies
            apply_all(r, d)[j] == r[j] by {
            assert(r1[j] == r[j] && r2[j] == r1[j] && r3[j] == r2[j] && r4[j] == r3[j]);
            assert(r5[j] == r4[j] && r6[j] == r5[j] && r7[j] == r6[j]);
            assert(apply_all(r, d)[j] == r8[j]);
        }
    }
    if d.net_totals is None {
        let ja = H_TOTAL_BYTES_RECV as int;
        let jb = H_TOTAL_BYTES_SENT as int;
        assert(apply_net_totals(r8, d) == r8);
        assert(r1[ja] == r[ja] && r2[ja] == r1[ja] && r3[ja] == r2[ja] && r4[ja] == r3[ja]);
        assert(r5[ja] == r4[ja] && r6[ja] == r5[ja] && r7[ja] == r6[ja] && r8[ja] == r7[ja]);
        assert(r1[jb] == r[jb] && r2[jb] == r1[jb] && r3[jb] == r2[jb] && r4[jb] == r3[jb]);
        assert(r5[jb] == r4[jb] && r6[jb] == r5[jb] && r7[jb] == r6[jb] && r8[jb] == r7[jb]);
    }
}

/// Every ban entry the daemon reports in a scrape has a slot in both ban
/// gauges afterwards, whether or not its label tuple was ever seen before.
#[verifier::rlimit(100)]
pub proof fn lemma_ban_upserted(r: Seq<MetricModel>, d: ScrapeData, k: int)
    requires
        registry_wf(r),
        shapes_ok(r),
        d.banned matches Some(bans) && 0 <= k < bans@.len(),
    ensures
        has_labels(
            apply_all(r, d)[H_BAN_CREATED as int].samples,
            ban_labels(d.banned->Some_0@[k]),
        ),
        has_labels(
            apply_all(r, d)[H_BANNED_UNTIL as int].samples,
            ban_labels(d.banned->Some_0@[k]),
        ),
{
    let bans = d.banned->Some_0@;
    let r1 = apply_network(r, d);
    let r2 = apply_fees(r1, d);
    let r3 = apply_hash_rates(r2, d);
    let r4 = apply_bans(r3, d);
    let r5 = apply_chain_tx(r4, d);
    let r6 = apply_chain_tips(r5, d);
    let r7 = apply_memory(r6, d);
    let r8 = apply_mempool(r7, d);
    let ls = ban_labels(bans[k]);
    lemma_network_preserves(r, d);
    lemma_fees_preserves(r1, d);
    lemma_hash_rates_preserves(r2, d);
    lemma_bans_from_upserted(r3, bans, 0, k);
    lemma_bans_preserves(r3, d);
    assert(has_labels(r4[H_BAN_CREATED as int].samples, ls));
    assert(has_labels(r4[H_BANNED_UNTIL as int].samples, ls));
    lemma_opt_int_preserves(r4, d.chain_tx_count, H_TXCOUNT as int);
    assert(has_labels(r5[H_BAN_CREATED as int].samples, ls));
    assert(has_labels(r5[H_BANNED_UNTIL as int].samples, ls));
    lemma_opt_int_preserves(r5, d.chain_tips_count, H_NUM_CHAINTIPS as int);
    assert(has_labels(r6[H_BAN_CREATED as int].samples, ls));
    assert(has_labels(r6[H_BANNED_UNTIL as int].samples, ls));
    lemma_memory_preserves(r6, d);
    assert(has_labels(r7[H_BAN_CREATED as int].samples, ls));
    assert(has_labels(r7[H_BANNED_UNTIL as int].samples, ls));
    lemma_mempool_preserves(r7, d);
    assert(has_labels(r8[H_BAN_CREATED as int].samples, ls));
    assert(has_labels(r8[H_BANNED_UNTIL as int].samples, ls));
    lemma_net_totals_preserves(r8, d);
    assert(has_labels(apply_net_totals(r8, d)[H_BAN_CREATED as int].samples, ls));
    assert(has_labels(apply_net_totals(r8, d)[H_BANNED_UNTIL as int].samples, ls));
}

/// From entry `i` on, the ban writes leave a slot for every later entry.
proof fn lemma_bans_from_upserted(r: Seq<MetricModel>, bans: Seq<BanEntry>, i: int, k: int)
    requires
        registry_wf(r),
        shapes_ok(r),
        0 <= i <= k < bans.len(),
    ensures
        has_labels(apply_bans_from(r, bans, i)[H_BAN_CREATED as int].samples, ban_labels(bans[k])),
        has_labels(apply_bans_from(r, bans, i)[H_BANNED_UNTIL as int].samples, ban_labels(bans[k])),
    decreases bans.len() - i,
{
    let ls = ban_labels(bans[i]);
    assert(ls.len() == 2);
    let r1 = set_value(r, H_BAN_CREATED as int, ls, ValueModel::Int(bans[i].ban_created));
    lemma_set_value_preserves(r, H_BAN_CREATED as int, ls, ValueModel::Int(bans[i].ban_created));
    lemma_set_value_shapes(r, H_BAN_CREATED as int, ls, ValueModel::Int(bans[i].ban_created));
    let r2 = set_value(r1, H_BANNED_UNTIL as int, ls, ValueModel::Int(bans[i].banned_until));
    lemma_set_value_preserves(r1, H_BANNED_UNTIL as int, ls, ValueModel::Int(bans[i].banned_until));
    lemma_set_value_shapes(r1, H_BANNED_UNTIL as int, ls, ValueModel::Int(bans[i].banned_until));
    if i == k {
        lemma_bans_from_preserves(r2, bans, i + 1);
        assert(has_labels(r2[H_BAN_CREATED as int].samples, ls));
        assert(has_labels(r2[H_BANNED_UNTIL as int].samples, ls));
    } else {
        lemma_bans_from_upserted(r2, bans, i + 1, k);
    }
}

/// What one scrape has run on a registry, another may run on the result: the
/// registry after a whole sequence of scrapes.
pub open spec fn apply_scrapes(r: Seq<MetricModel>, ds: Seq<ScrapeData>) -> Seq<MetricModel>
    decreases ds.len(),
{
    if ds.len() == 0 {
        r
    } else {
        apply_scrapes(apply_all(r, ds[0]), ds.drop_first())
    }
}

/// The warning counter never moves down across one scrape, whatever the
/// daemon reported.
#[verifier::rlimit(100)]
pub proof fn lemma_warning_counter_monotone(r: Seq<MetricModel>, d: ScrapeData)
    requires
        registry_wf(r),
        shapes_ok(r),
    ensures
        warning_count(apply_all(r, d)) >= warning_count(r),
{
    let r1 = apply_network(r, d);
    let r2 = apply_fees(r1, d);
    let r3 = apply_hash_rates(r2, d);
    let r4 = apply_bans(r3, d);
    let r5 = apply_chain_tx(r4, d);
    let r6 = apply_chain_tips(r5, d);
    let r7 = apply_memory(r6, d);
    let r8 = apply_mempool(r7, d);
    lemma_network_preserves(r, d);
    lemma_fees_frame(r1, d);
    lemma_hash_rates_frame(r2, d);
    lemma_bans_frame(r3, d);
    lemma_opt_int_frame(r4, d.chain_tx_count, H_TXCOUNT as int);
    lemma_opt_int_frame(r5, d.chain_tips_count, H_NUM_CHAINTIPS as int);
    lemma_memory_frame(r6, d);
    lemma_mempool_frame(r7, d);
    lemma_net_totals_frame(r8, d);
    if d.chain_tx_count is None {
        let j = H_TXCOUNT as int;
        assert(r5 == r4);
        assert(r1[j] == r[j] && r2[j] == r1[j] && r3[j] == r2[j] && r4[j] == r3[j]);
        assert(r6[j] == r5[j] && r7[j] == r6[j] && r8[j] == r7[j]);
        assert(apply_all(r, d)[j] == r8[j]);
    }
    if d.chain_tips_count is None {
        let j = H_NUM_CHAINTIPS as int;
        assert(r6 == r5);
        assert(r1[j] == r[j] && r2[j] == r1[j] && r3[j] == r2[j] && r4[j] == r3[j]);
        assert(r5[j] == r4[j] && r7[j] == r6[j] && r8[j] == r7[j]);
        assert(apply_all(r, d)[j] == r8[j]);
    }
    if d.mempool_info matches Some(mp) && mp.unbroadcast is None {
        let j = H_MEMPOOL_UNBROADCAST as int;
        assert(r1[j] == r[j] && r2[j] == r1[j] && r3[j] == r2[j] && r4[j] == r3[j]);
        assert(r5[j] == r4[j] && r6[j] == r5[j] && r7[j] == r6[j]);
        assert(r8[j] == r7[j]);
        assert(apply_all(r, d)[j] == r8[j]);
    }
    if d.net_totals is None {
        let ja = H_TOTAL_BYTES_RECV as int;
        let jb = H_TOTAL_BYTES_SENT as int;
        assert(apply_net_totals(r8, d) == r8);
        assert(r1[ja] == r[ja] && r2[ja] == r1[ja] && r3[ja] == r2[ja] && r4[ja] == r3[ja]);
        assert(r5[ja] == r4[ja] && r6[ja] == r5[ja] && r7[ja] == r6[ja] && r8[ja] == r7[ja]);
        assert(r1[jb] == r[jb] && r2[jb] == r1[jb] && r3[jb] == r2[jb] && r4[jb] == r3[jb]);
        assert(r5[jb] == r4[jb] && r6[jb] == r5[jb] && r7[jb] == r6[jb] && r8[jb] == r7[jb]);
    }
}

/// The warning counter never resets: across any sequence of scrapes it only
/// ever grows.
pub proof fn lemma_warning_counter_monotone_scrapes(r: Seq<MetricModel>, ds: Seq<ScrapeData>)
    requires
        registry_wf(r),
        shapes_ok(r),
    ensures
        warning_count(apply_scrapes(r, ds)) >= warning_count(r),
    decreases ds.len(),
{
    if ds.len() > 0 {
        lemma_scrape_preserves(r, ds[0]);
        lemma_warning_counter_monotone(r, ds[0]);
        lemma_warning_counter_monotone_scrapes(apply_all(r, ds[0]), ds.drop_first());
    }
}
} // verus!
