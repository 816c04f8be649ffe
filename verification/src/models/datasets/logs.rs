use vstd::prelude::*;

use crate::models::types::{Address, BlockDate, BlockTime, B256};

verus! {

/// The fields of an event log, as read from a transaction receipt.
#[derive(Debug, Clone)]
pub struct CommonRpcLogReceiptData {
    pub block_time: Option<BlockTime>,
    pub block_date: Option<BlockDate>,
    pub block_number: Option<u64>,
    pub block_hash: Option<B256>,
    pub tx_hash: Option<B256>,
    pub tx_index: Option<u64>,
    pub log_index: Option<u64>,
    pub address: Address,
    pub topics: Vec<B256>,
    pub data: Vec<u8>,
}

#[derive(Debug, Clone)]
pub struct EthereumRpcLogReceiptData {
    pub common: CommonRpcLogReceiptData,
}

#[derive(Debug, Clone)]
pub struct ZKsyncRpcLogReceiptData {
    pub common: CommonRpcLogReceiptData,
}

#[derive(Debug, Clone)]
pub enum RpcLogReceiptData {
    Ethereum(EthereumRpcLogReceiptData),
    ZKsync(ZKsyncRpcLogReceiptData),
}

/// The common fields of a log, whatever its chain.
pub open spec fn log_common(l: RpcLogReceiptData) -> CommonRpcLogReceiptData {
    match l {
        RpcLogReceiptData::Ethereum(e) => e.common,
        RpcLogReceiptData::ZKsync(z) => z.common,
    }
}

/// A log row as stored, keyed by `id`.
#[derive(Debug, Clone)]
pub struct CommonTransformedLogData {
    pub id: String,
    pub chain_id: u64,
    pub block_time: Option<BlockTime>,
    pub block_date: Option<BlockDate>,
    pub block_number: Option<u64>,
    pub block_hash: Option<B256>,
    pub tx_hash: Option<B256>,
    pub tx_index: Option<u64>,
    pub log_index: Option<u64>,
    pub address: Address,
    pub topics: Vec<B256>,
    pub data: Vec<u8>,
}

#[derive(Debug, Clone)]
pub struct EthereumTransformedLogData {
    pub common: CommonTransformedLogData,
}

#[derive(Debug, Clone)]
pub struct ZKsyncTransformedLogData {
    pub common: CommonTransformedLogData,
}

#[derive(Debug, Clone)]
pub enum TransformedLogData {
    Ethereum(EthereumTransformedLogData),
    ZKsync(ZKsyncTransformedLogData),
}

} // verus!
