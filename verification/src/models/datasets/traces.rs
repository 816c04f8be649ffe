use vstd::prelude::*;

use crate::models::types::{Address, BlockDate, BlockTime, B256};

verus! {

/// One call of a transaction's call tree, as read from a call tracer.
#[derive(Debug, Clone)]
pub struct CommonRpcTraceData {
    pub block_number: u64,
    pub tx_hash: Option<B256>,
    pub trace_type: String,
    pub subtraces: usize,
    pub trace_address: Vec<usize>,
    pub from_address: Address,
    pub to_address: Option<Address>,
    pub value: Option<String>,
    pub gas: String,
    pub gas_used: String,
    pub input: Vec<u8>,
    pub output: Option<Vec<u8>>,
    pub error: Option<String>,
}

#[derive(Debug, Clone)]
pub struct EthereumRpcTraceData {
    pub common: CommonRpcTraceData,
}

#[derive(Debug, Clone)]
pub struct ZKsyncRpcTraceData {
    pub common: CommonRpcTraceData,
}

#[derive(Debug, Clone)]
pub enum RpcTraceData {
    Ethereum(EthereumRpcTraceData),
    ZKsync(ZKsyncRpcTraceData),
}

/// The common fields of a trace, whatever its chain.
pub open spec fn trace_common(t: RpcTraceData) -> CommonRpcTraceData {
    match t {
        RpcTraceData::Ethereum(e) => e.common,
        RpcTraceData::ZKsync(z) => z.common,
    }
}

/// A trace row as stored, keyed by `id`.
#[derive(Debug, Clone)]
pub struct CommonTransformedTraceData {
    pub id: String,
    pub chain_id: u64,
    pub block_time: BlockTime,
    pub block_date: BlockDate,
    pub block_number: u64,
    pub block_hash: B256,
    pub tx_hash: Option<B256>,
    pub tx_index: Option<u64>,
    pub trace_type: String,
    pub subtraces: usize,
    pub trace_address: Vec<usize>,
    pub from_address: Address,
    pub to_address: Option<Address>,
    pub value: Option<String>,
    pub gas: String,
    pub gas_used: String,
    pub input: Vec<u8>,
    pub output: Option<Vec<u8>>,
    pub error: Option<String>,
}

#[derive(Debug, Clone)]
pub struct EthereumTransformedTraceData {
    pub common: CommonTransformedTraceData,
}

#[derive(Debug, Clone)]
pub struct ZKsyncTransformedTraceData {
    pub common: CommonTransformedTraceData,
}

#[derive(Debug, Clone)]
pub enum TransformedTraceData {
    Ethereum(EthereumTransformedTraceData),
    ZKsync(ZKsyncTransformedTraceData),
}

} // verus!
