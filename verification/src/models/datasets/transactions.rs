use vstd::prelude::*;

use crate::models::common::TransactionTo;
use crate::models::types::{Address, BlockDate, BlockTime, Bytes48, B256};

verus! {

/// The transaction fields that every chain shares, as read from a block.
#[derive(Debug, Clone)]
pub struct CommonRpcTransactionData {
    pub block_number: Option<u64>,
    pub block_hash: Option<B256>,
    pub tx_hash: B256,
    pub tx_index: Option<u64>,
    pub tx_type: u8,
    pub nonce: u64,
    pub from_address: Address,
    pub to_address: TransactionTo,
    pub input: Option<Vec<u8>>,
    pub value: Option<String>,
    pub gas_price: Option<u128>,
    pub gas_limit: u64,
    pub max_fee_per_gas: Option<u128>,
    pub max_priority_fee_per_gas: Option<u128>,
    pub effective_gas_price: Option<u128>,
    pub blob_versioned_hashes: Vec<B256>,
}

/// An Ethereum transaction: the common fields and the EIP-4844 blob fields.
#[derive(Debug, Clone)]
pub struct EthereumRpcTransactionData {
    pub common: CommonRpcTransactionData,
    pub max_fee_per_blob_gas: Option<u128>,
    pub blobs: Vec<Vec<u8>>,
    pub commitments: Vec<Bytes48>,
    pub proofs: Vec<Bytes48>,
}

/// A ZKsync transaction: the common fields and its place in an L1 batch.
#[derive(Debug, Clone)]
pub struct ZKsyncRpcTransactionData {
    pub common: CommonRpcTransactionData,
    pub l1_batch_number: Option<u64>,
    pub l1_batch_tx_index: Option<u64>,
}

#[derive(Debug, Clone)]
pub enum RpcTransactionData {
    Ethereum(EthereumRpcTransactionData),
    ZKsync(ZKsyncRpcTransactionData),
}

/// The common fields of a transaction, whatever its chain.
pub open spec fn tx_common(t: RpcTransactionData) -> CommonRpcTransactionData {
    match t {
        RpcTransactionData::Ethereum(e) => e.common,
        RpcTransactionData::ZKsync(z) => z.common,
    }
}

/// The receipt fields that every chain shares.
#[derive(Debug, Clone)]
pub struct CommonRpcTransactionReceiptData {
    pub block_number: Option<u64>,
    pub block_hash: Option<B256>,
    pub tx_hash: B256,
    pub tx_index: Option<u64>,
    pub tx_type: u8,
    pub status: Option<bool>,
    pub from_address: Address,
    pub to_address: Option<Address>,
    pub contract_address: Option<Address>,
    pub gas_used: u128,
    pub effective_gas_price: u128,
    pub cumulative_gas_used: u128,
}

#[derive(Debug, Clone)]
pub struct EthereumRpcTransactionReceiptData {
    pub common: CommonRpcTransactionReceiptData,
}

#[derive(Debug, Clone)]
pub struct ZKsyncRpcTransactionReceiptData {
    pub common: CommonRpcTransactionReceiptData,
    pub l1_batch_number: Option<u64>,
    pub l1_batch_tx_index: Option<u64>,
}

#[derive(Debug, Clone)]
pub enum RpcTransactionReceiptData {
    Ethereum(EthereumRpcTransactionReceiptData),
    ZKsync(ZKsyncRpcTransactionReceiptData),
}

/// The common fields of a receipt, whatever its chain.
pub open spec fn receipt_common(r: RpcTransactionReceiptData) -> CommonRpcTransactionReceiptData {
    match r {
        RpcTransactionReceiptData::Ethereum(e) => e.common,
        RpcTransactionReceiptData::ZKsync(z) => z.common,
    }
}

/// A transaction row as stored: the transaction joined with its receipt and block.
#[derive(Debug)]
pub struct CommonTransformedTransactionData {
    pub chain_id: u64,
    pub block_time: BlockTime,
    pub block_date: BlockDate,
    pub block_number: Option<u64>,
    pub block_hash: Option<B256>,
    pub tx_hash: B256,
    pub tx_index: Option<u64>,
    pub tx_type: u8,
    pub status: Option<bool>,
    pub nonce: u64,
    pub from_address: Address,
    pub to_address: Option<Address>,
    pub contract_address: Option<Address>,
    pub input: Option<Vec<u8>>,
    pub value: Option<String>,
    pub gas_price: Option<u128>,
    pub gas_limit: u64,
    pub gas_used: u128,
    pub max_fee_per_gas: Option<u128>,
    pub max_priority_fee_per_gas: Option<u128>,
    pub effective_gas_price: u128,
    pub cumulative_gas_used: u128,
    pub blob_versioned_hashes: Vec<B256>,
}

#[derive(Debug)]
pub struct EthereumTransformedTransactionData {
    pub common: CommonTransformedTransactionData,
    pub max_fee_per_blob_gas: Option<u128>,
    pub blobs: Vec<Vec<u8>>,
    pub commitments: Vec<Bytes48>,
    pub proofs: Vec<Bytes48>,
}

#[derive(Debug)]
pub struct ZKsyncTransformedTransactionData {
    pub common: CommonTransformedTransactionData,
    pub l1_batch_number: Option<u64>,
    pub l1_batch_tx_index: Option<u64>,
}

#[derive(Debug)]
pub enum TransformedTransactionData {
    Ethereum(EthereumTransformedTransactionData),
    ZKsync(ZKsyncTransformedTransactionData),
}

} // verus!
