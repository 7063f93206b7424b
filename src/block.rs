use vstd::prelude::*;

verus! {

/// A decoded block. Hashes, roots and blobs are kept as their `0x` wire text;
/// the scores that may exceed 64 bits are kept as the numeric text the node sent.
#[derive(Clone, Debug, PartialEq, Eq)]
pub struct Block {
    pub blockscore: String,
    pub extra_data: String,
    pub gas_used: u64,
    pub governance_data: String,
    pub hash: String,
    pub logs_bloom: String,
    pub number: u64,
    pub parent_hash: String,
    pub receipts_root: String,
    pub reward: String,
    pub size: u64,
    pub state_root: String,
    pub timestamp: u64,
    pub timestamp_fo_s: u64,
    pub total_block_score: String,
    /// Hashes of the block's transactions, in block order.
    pub transactions: Vec<String>,
    pub transactions_root: String,
    pub vote_data: String,
}

} // verus!
