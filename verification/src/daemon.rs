//! Typed results of the daemon's RPC operations, as the collectors read them.
//!
//! The transport that issues the calls lives outside the library. For each
//! operation of one scrape it hands over either the decoded result or nothing
//! when the call failed; the collectors never see a transport error, only the
//! absence of a result. Readings the daemon reports as integers arrive as
//! integers; readings it reports as fractional numbers (difficulty,
//! verification progress, hash rates, amounts in whole coins) arrive as the
//! caller's decimal rendering and pass through to the exposition text
//! unchanged.

use vstd::prelude::*;

verus! {

/// Result of the network-info operation.
pub struct NetworkInfo {
    /// Daemon software version.
    pub version: u64,
    /// Peer-to-peer protocol version.
    pub protocol_version: u64,
    /// Number of connected peers.
    pub connections: u64,
    /// Number of inbound connections; some daemon configurations omit it.
    pub connections_in: Option<u64>,
    /// Number of outbound connections; some daemon configurations omit it.
    pub connections_out: Option<u64>,
    /// Active network or blockchain warnings.
    pub warnings: Vec<String>,
}

/// Result of the blockchain-info operation.
pub struct BlockchainInfo {
    /// Chain name: `main`, `test`, `signet` or `regtest`.
    pub chain: String,
    /// Current block height.
    pub blocks: u64,
    /// Proof-of-work difficulty, rendered.
    pub difficulty: String,
    /// Estimated size of the block and undo files on disk.
    pub size_on_disk: u64,
    /// Verification progress in `[0, 1]`, rendered.
    pub verification_progress: String,
}

/// Result of the block-statistics operation for the latest block.
pub struct BlockStats {
    /// Block size in bytes.
    pub total_size: u64,
    /// Number of transactions.
    pub txs: u64,
    /// Block height.
    pub height: u64,
    /// Block weight.
    pub total_weight: u64,
    /// Number of transaction inputs.
    pub ins: u64,
    /// Number of transaction outputs.
    pub outs: u64,
    /// Total output value in whole coins, rendered.
    pub total_out: String,
    /// Total fee in whole coins, rendered.
    pub total_fee: String,
}

/// One entry of the daemon's ban list.
pub struct BanEntry {
    /// Banned peer address.
    pub address: String,
    /// Unix time the ban was created.
    pub ban_created: u64,
    /// Unix time the ban expires.
    pub banned_until: u64,
}

/// Result of the memory-info operation: the locked memory manager's counters.
pub struct MemoryInfo {
    /// Bytes used.
    pub used: u64,
    /// Bytes available.
    pub free: u64,
    /// Bytes managed.
    pub total: u64,
    /// Bytes locked.
    pub locked: u64,
    /// Allocated chunks.
    pub chunks_used: u64,
    /// Unused chunks.
    pub chunks_free: u64,
}

/// Result of the mempool-info operation.
pub struct MempoolInfo {
    /// Sum of all virtual transaction sizes.
    pub bytes: u64,
    /// Number of unconfirmed transactions.
    pub size: u64,
    /// Total memory usage.
    pub usage: u64,
    /// Transactions waiting for initial broadcast; older daemons omit it.
    pub unbroadcast: Option<u64>,
}

/// Result of the net-totals operation.
pub struct NetTotals {
    /// Total bytes received.
    pub total_bytes_recv: u64,
    /// Total bytes sent.
    pub total_bytes_sent: u64,
}

/// Everything one scrape learned from the daemon: per operation, the decoded
/// result, or nothing when that call failed.
///
/// The estimated-fee fields are also nothing when the daemon answered but had
/// no estimate available; the two cases are treated identically. The
/// block-statistics, uptime and hash-rate results are requested only after
/// their prerequisite calls succeed, so a caller leaves them unset when the
/// prerequisite failed.
pub struct ScrapeData {
    /// Network info.
    pub network_info: Option<NetworkInfo>,
    /// Blockchain info.
    pub blockchain_info: Option<BlockchainInfo>,
    /// Daemon uptime in seconds.
    pub uptime: Option<u64>,
    /// Statistics of the latest block.
    pub latest_block_stats: Option<BlockStats>,
    /// Fee rate in satoshi per kilobyte for confirmation within 2 blocks.
    pub smart_fee_2: Option<u64>,
    /// Fee rate for confirmation within 3 blocks.
    pub smart_fee_3: Option<u64>,
    /// Fee rate for confirmation within 5 blocks.
    pub smart_fee_5: Option<u64>,
    /// Fee rate for confirmation within 20 blocks.
    pub smart_fee_20: Option<u64>,
    /// Network hash rate since the last difficulty change, rendered.
    pub hashps_neg1: Option<String>,
    /// Network hash rate over the last block, rendered.
    pub hashps_1: Option<String>,
    /// Network hash rate over the last 120 blocks, rendered.
    pub hashps: Option<String>,
    /// The daemon's current ban list.
    pub banned: Option<Vec<BanEntry>>,
    /// Number of transactions since the genesis block.
    pub chain_tx_count: Option<u64>,
    /// Number of known blockchain branches.
    pub chain_tips_count: Option<u64>,
    /// Memory-allocator statistics.
    pub memory_info: Option<MemoryInfo>,
    /// Mempool statistics.
    pub mempool_info: Option<MempoolInfo>,
    /// Totals of bytes sent and received.
    pub net_totals: Option<NetTotals>,
}

impl ScrapeData {
    /// A scrape in which every call failed.
    pub fn empty() -> (d: ScrapeData)
        ensures
            d.network_info is None,
            d.blockchain_info is None,
            d.uptime is None,
            d.latest_block_stats is None,
            d.smart_fee_2 is None,
            d.smart_fee_3 is None,
            d.smart_fee_5 is None,
            d.smart_fee_20 is None,
            d.hashps_neg1 is None,
            d.hashps_1 is None,
            d.hashps is None,
            d.banned is None,
            d.chain_tx_count is None,
            d.chain_tips_count is None,
            d.memory_info is None,
            d.mempool_info is None,
            d.net_totals is None,
    {
        ScrapeData {
            network_info: None,
            blockchain_info: None,
            uptime: None,
            latest_block_stats: None,
            smart_fee_2: None,
            smart_fee_3: None,
            smart_fee_5: None,
            smart_fee_20: None,
            hashps_neg1: None,
            hashps_1: None,
            hashps: None,
            banned: None,
            chain_tx_count: None,
            chain_tips_count: None,
            memory_info: None,
            mempool_info: None,
            net_totals: None,
        }
    }
}

} // verus!
