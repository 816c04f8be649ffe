use vstd::prelude::*;

verus! {

/// An error about the chain that an RPC endpoint serves.
#[derive(Debug)]
pub enum ChainError {
    UnsupportedChainId { chain_id: u64 },
}

/// An error in a response of an RPC endpoint.
#[derive(Debug)]
pub enum RpcError {
    InvalidBlockNumberResponse { got: String },
}

/// An error in the shape of a block.
#[derive(Debug)]
pub enum BlockError {
    /// The block holds only transaction hashes, not full transaction objects.
    TransactionHashesOnly,
    /// The block is an uncle (ommer) block.
    UncleBlocksNotSupported,
}

/// An error in the shape of a transaction receipt.
#[derive(Debug)]
pub enum ReceiptError {
    MissingField { field: String },
}

/// A field that a transaction of an unknown envelope type must carry.
#[derive(Debug, Clone, Copy, PartialEq, Eq, Structural)]
pub enum RequiredTxField {
    Nonce,
    Gas,
}

/// A field that a row must carry for its key to be built.
#[derive(Debug, Clone, Copy, PartialEq, Eq, Structural)]
pub enum KeyField {
    TxHash,
    TxIndex,
    LogIndex,
    TraceAddress,
}

/// Every error that the indexing library reports.
#[derive(Debug)]
pub enum IndexerError {
    Chain(ChainError),
    Rpc(RpcError),
    Block(BlockError),
    Receipt(ReceiptError),
    /// A dataset name other than blocks, logs, transactions or traces.
    InvalidTableName { name: String },
    /// A string that is not a hexadecimal number of the expected width.
    InvalidHex,
    /// A Unix timestamp that no UTC date-time can hold.
    InvalidTimestamp { timestamp: u64 },
    /// A required field is missing from a transaction of an unknown envelope type.
    MissingTransactionField { field: RequiredTxField },
    /// The `to` field of a transaction of an unknown envelope type is not a valid recipient.
    InvalidRecipient,
    /// The `to` field of a transaction of an unknown envelope type is missing.
    MissingRecipient,
    /// A log or trace lacks a field that its primary key needs.
    MissingKeyField { field: KeyField },
    /// Some of the fields that a storage row key needs are missing.
    MissingInsertIdFields { fields: Vec<KeyField>, block_number: u64 },
    /// An insert id was asked for a table name that storage does not know.
    UnknownTable { name: String, block_number: u64 },
    /// A block was asked for by a tag, not by its number.
    ExpectedBlockNumber,
    /// An operation failed on its last allowed attempt.
    RetriesExhausted { attempts: u32 },
}

} // verus!
