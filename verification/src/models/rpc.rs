use vstd::prelude::*;

use crate::models::common::TxKind;
use crate::models::types::{Address, BlockNonce, Bloom, Bytes48, B256, U256Limbs};

verus! {

/// A block header as an RPC endpoint returns it.
#[derive(Debug, Clone)]
pub struct RawHeader {
    pub hash: B256,
    pub parent_hash: B256,
    pub ommers_hash: B256,
    pub beneficiary: Address,
    pub state_root: B256,
    pub transactions_root: B256,
    pub receipts_root: B256,
    pub logs_bloom: Bloom,
    pub difficulty: U256Limbs,
    pub number: u64,
    pub gas_limit: u64,
    pub gas_used: u64,
    pub timestamp: u64,
    pub extra_data: Vec<u8>,
    pub mix_hash: Option<B256>,
    pub nonce: Option<BlockNonce>,
    pub base_fee_per_gas: Option<u64>,
    pub withdrawals_root: Option<B256>,
    pub blob_gas_used: Option<u64>,
    pub excess_blob_gas: Option<u64>,
    pub parent_beacon_block_root: Option<B256>,
    pub requests_hash: Option<B256>,
    pub target_blobs_per_block: Option<u64>,
    pub total_difficulty: Option<U256Limbs>,
    pub size: Option<U256Limbs>,
}

/// A block as an RPC endpoint returns it, with the extra fields that a ZKsync endpoint adds
/// (each present only when the response holds it as a string).
#[derive(Debug, Clone)]
pub struct RawBlock {
    pub header: RawHeader,
    pub transactions: RawBlockTransactions,
    pub l1_batch_number: Option<String>,
    pub l1_batch_timestamp: Option<String>,
}

/// The transactions part of a block response.
#[derive(Debug, Clone)]
pub enum RawBlockTransactions {
    Full(Vec<RawTransaction>),
    Hashes(Vec<B256>),
    Uncle,
}

/// The signed body of a legacy or EIP-2930 transaction.
#[derive(Debug, Clone)]
pub struct RawGasPriceTx {
    pub hash: B256,
    pub nonce: u64,
    pub to: TxKind,
    pub input: Vec<u8>,
    pub value: U256Limbs,
    pub gas_price: u128,
    pub gas_limit: u64,
}

/// The signed body of an EIP-1559 transaction.
#[derive(Debug, Clone)]
pub struct RawEip1559Tx {
    pub hash: B256,
    pub nonce: u64,
    pub to: TxKind,
    pub input: Vec<u8>,
    pub value: U256Limbs,
    pub gas_limit: u64,
    pub max_fee_per_gas: u128,
    pub max_priority_fee_per_gas: u128,
}

/// The blobs, commitments and proofs that may travel with an EIP-4844 transaction.
#[derive(Debug, Clone)]
pub struct RawBlobSidecar {
    pub blobs: Vec<Vec<u8>>,
    pub commitments: Vec<Bytes48>,
    pub proofs: Vec<Bytes48>,
}

/// The signed body of an EIP-4844 transaction, with its sidecar when the response holds one.
#[derive(Debug, Clone)]
pub struct RawEip4844Tx {
    pub hash: B256,
    pub nonce: u64,
    pub to: Address,
    pub input: Vec<u8>,
    pub value: U256Limbs,
    pub gas_limit: u64,
    pub max_fee_per_gas: u128,
    pub max_priority_fee_per_gas: u128,
    pub blob_versioned_hashes: Vec<B256>,
    pub max_fee_per_blob_gas: u128,
    pub sidecar: Option<RawBlobSidecar>,
}

/// The signed body of an EIP-7702 transaction.
#[derive(Debug, Clone)]
pub struct RawEip7702Tx {
    pub hash: B256,
    pub nonce: u64,
    pub to: Address,
    pub input: Vec<u8>,
    pub value: U256Limbs,
    pub gas_limit: u64,
    pub max_fee_per_gas: u128,
    pub max_priority_fee_per_gas: u128,
}

/// A transaction of a type that the Ethereum envelope does not know: its type byte and the
/// fields read from its JSON object. A string field is present only when the response holds
/// it as a string; `to` is `None` when the field is missing and `Some(None)` when it is not a
/// valid recipient.
#[derive(Debug, Clone)]
pub struct RawUnknownTx {
    pub hash: B256,
    pub ty: u8,
    pub nonce: Option<String>,
    pub gas: Option<String>,
    pub to: Option<Option<TxKind>>,
    pub input: Option<Vec<u8>>,
    pub value: Option<U256Limbs>,
    pub gas_price: Option<String>,
    pub max_fee_per_gas: Option<String>,
    pub max_priority_fee_per_gas: Option<String>,
    pub l1_batch_number: Option<String>,
    pub l1_batch_tx_index: Option<String>,
    pub blob_versioned_hashes: Option<Vec<B256>>,
}

/// The envelope of a transaction in a block response.
#[derive(Debug, Clone)]
pub enum RawTxEnvelope {
    Legacy(RawGasPriceTx),
    Eip2930(RawGasPriceTx),
    Eip1559(RawEip1559Tx),
    Eip4844(RawEip4844Tx),
    Eip7702(RawEip7702Tx),
    Unknown(RawUnknownTx),
}

/// A transaction of a block response, with the extra fields of its JSON object that the
/// indexer reads (each string field present only when the response holds it as a string).
#[derive(Debug, Clone)]
pub struct RawTransaction {
    pub envelope: RawTxEnvelope,
    pub block_hash: Option<B256>,
    pub block_number: Option<u64>,
    pub transaction_index: Option<u64>,
    pub effective_gas_price: Option<u128>,
    pub from: Option<Address>,
    pub max_fee_per_gas: Option<String>,
    pub max_priority_fee_per_gas: Option<String>,
    pub l1_batch_number: Option<String>,
    pub l1_batch_tx_index: Option<String>,
}

/// The outcome field of a receipt: a status code (EIP-658) or an intermediate state root.
#[derive(Debug, Clone, Copy)]
pub enum RawReceiptStatus {
    Eip658(bool),
    PostState(B256),
}

/// An event log inside a receipt.
#[derive(Debug, Clone)]
pub struct RawLog {
    pub address: Address,
    pub topics: Vec<B256>,
    pub data: Vec<u8>,
    pub block_hash: Option<B256>,
    pub block_number: Option<u64>,
    pub block_timestamp: Option<u64>,
    pub transaction_hash: Option<B256>,
    pub transaction_index: Option<u64>,
    pub log_index: Option<u64>,
    pub removed: bool,
}

/// A transaction receipt as an RPC endpoint returns it, with the ZKsync batch fields (each
/// present only when the response holds it as a string).
#[derive(Debug, Clone)]
pub struct RawReceipt {
    pub transaction_hash: B256,
    pub transaction_index: Option<u64>,
    pub block_hash: Option<B256>,
    pub block_number: Option<u64>,
    pub tx_type: u8,
    pub status: RawReceiptStatus,
    pub from: Address,
    pub to: Option<Address>,
    pub contract_address: Option<Address>,
    pub gas_used: u128,
    pub effective_gas_price: u128,
    pub cumulative_gas_used: u128,
    pub logs: Vec<RawLog>,
    pub l1_batch_number: Option<String>,
    pub l1_batch_tx_index: Option<String>,
}

/// One call frame of a call tracer's output, with its nested calls.
#[derive(Debug)]
pub struct RawCallFrame {
    pub typ: String,
    pub from: Address,
    pub to: Option<Address>,
    pub value: Option<U256Limbs>,
    pub gas: U256Limbs,
    pub gas_used: U256Limbs,
    pub input: Vec<u8>,
    pub output: Option<Vec<u8>>,
    pub error: Option<String>,
    pub revert_reason: Option<String>,
    pub calls: Vec<RawCallFrame>,
}

/// The output of a tracer for one transaction.
#[derive(Debug)]
pub enum RawTrace {
    /// The call tracer's tree of call frames.
    CallTracer(RawCallFrame),
    /// A JavaScript tracer that returned `null`.
    JsNull,
    /// Any other tracer's output (default, flat call, 4byte, prestate, noop, mux, or a
    /// JavaScript tracer that returned a value).
    Unsupported,
}

/// The result of tracing one transaction.
#[derive(Debug)]
pub enum RawTraceResult {
    Success { result: RawTrace, tx_hash: Option<B256> },
    Error { error: String, tx_hash: Option<B256> },
}

} // verus!
