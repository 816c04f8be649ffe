use vstd::prelude::*;

use crate::models::types::{Address, BlockDate, BlockNonce, BlockTime, Bloom, B256};

verus! {

/// The header fields that every chain's blocks share, as read from the RPC response.
#[derive(Debug, Clone)]
pub struct CommonRpcHeaderData {
    pub block_time: BlockTime,
    pub block_date: BlockDate,
    pub block_number: u64,
    pub block_hash: B256,
    pub parent_hash: B256,
    pub nonce: Option<BlockNonce>,
    pub gas_limit: u64,
    pub gas_used: u64,
    pub base_fee_per_gas: Option<u64>,
    pub blob_gas_used: Option<u64>,
    pub excess_blob_gas: Option<u64>,
    pub extra_data: Vec<u8>,
    pub difficulty: String,
    pub total_difficulty: Option<String>,
    pub size: Option<String>,
    pub miner: Address,
    pub mix_hash: Option<B256>,
    pub requests_hash: Option<B256>,
    pub logs_bloom: Bloom,
    pub sha3_uncles: B256,
    pub parent_beacon_block_root: Option<B256>,
    pub receipts_root: B256,
    pub state_root: B256,
    pub transactions_root: B256,
    pub withdrawals_root: Option<B256>,
}

/// An Ethereum block header.
#[derive(Debug, Clone)]
pub struct EthereumRpcHeaderData {
    pub common: CommonRpcHeaderData,
}

/// A ZKsync block header: the common fields and the L1 batch it was committed in.
#[derive(Debug, Clone)]
pub struct ZKsyncRpcHeaderData {
    pub common: CommonRpcHeaderData,
    pub target_blobs_per_block: Option<u64>,
    pub l1_batch_number: Option<u64>,
    pub l1_batch_timestamp: Option<BlockTime>,
}

#[derive(Debug, Clone)]
pub enum RpcHeaderData {
    Ethereum(EthereumRpcHeaderData),
    ZKsync(ZKsyncRpcHeaderData),
}

/// The common fields of a header, whatever its chain.
pub open spec fn header_common(h: RpcHeaderData) -> CommonRpcHeaderData {
    match h {
        RpcHeaderData::Ethereum(e) => e.common,
        RpcHeaderData::ZKsync(z) => z.common,
    }
}

/// A block row as stored: the header fields and the chain ID.
#[derive(Debug, Clone)]
pub struct CommonTransformedBlockData {
    pub chain_id: u64,
    pub block_time: BlockTime,
    pub block_date: BlockDate,
    pub block_number: u64,
    pub block_hash: B256,
    pub parent_hash: B256,
    pub nonce: Option<BlockNonce>,
    pub gas_limit: u64,
    pub gas_used: u64,
    pub base_fee_per_gas: Option<u64>,
    pub blob_gas_used: Option<u64>,
    pub excess_blob_gas: Option<u64>,
    pub extra_data: Vec<u8>,
    pub difficulty: String,
    pub total_difficulty: Option<String>,
    pub size: Option<String>,
    pub miner: Address,
    pub mix_hash: Option<B256>,
    pub requests_hash: Option<B256>,
    pub logs_bloom: Bloom,
    pub sha3_uncles: B256,
    pub parent_beacon_block_root: Option<B256>,
    pub receipts_root: B256,
    pub state_root: B256,
    pub transactions_root: B256,
    pub withdrawals_root: Option<B256>,
}

#[derive(Debug, Clone)]
pub struct EthereumTransformedBlockData {
    pub common: CommonTransformedBlockData,
}

#[derive(Debug, Clone)]
pub struct ZKsyncTransformedBlockData {
    pub common: CommonTransformedBlockData,
    pub target_blobs_per_block: Option<u64>,
    pub l1_batch_number: Option<u64>,
    pub l1_batch_timestamp: Option<BlockTime>,
}

#[derive(Debug, Clone)]
pub enum TransformedBlockData {
    Ethereum(EthereumTransformedBlockData),
    ZKsync(ZKsyncTransformedBlockData),
}

} // verus!
