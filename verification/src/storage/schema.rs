use vstd::prelude::*;

use crate::models::common::Schema;

verus! {

/// The type of a stored column.
#[derive(Debug, Clone, Copy, PartialEq, Eq, Structural)]
pub enum FieldType {
    Integer,
    String,
    Timestamp,
    Date,
    Boolean,
    Record,
}

/// Whether a stored column must hold a value, may be empty, or holds a list.
#[derive(Debug, Clone, Copy, PartialEq, Eq, Structural)]
pub enum FieldMode {
    Required,
    Nullable,
    Repeated,
}

/// One column of a stored table: its name, type, mode and description, and for a record
/// column the columns inside it.
#[derive(Debug)]
pub struct FieldSpec {
    pub name: &'static str,
    pub data_type: FieldType,
    pub mode: FieldMode,
    pub description: &'static str,
    pub fields: Vec<FieldSpec>,
}

/// A column as the contracts describe it: name, type, mode and description.
pub type FieldModel = (Seq<char>, FieldType, FieldMode, Seq<char>);

/// The description of a column.
pub open spec fn field_model(f: FieldSpec) -> FieldModel {
    (f.name@, f.data_type, f.mode, f.description@)
}

/// The descriptions of a list of columns.
pub open spec fn field_models(fs: Seq<FieldSpec>) -> Seq<FieldModel> {
    fs.map_values(|f: FieldSpec| field_model(f))
}

/// Every column of the list that is not a record has no inner columns.
pub open spec fn scalars_flat(fs: Seq<FieldSpec>) -> bool {
    forall|i: int| 0 <= i < fs.len() && (#[trigger] fs[i]).data_type != FieldType::Record ==> fs[i].fields@.len() == 0
}

/// A column without inner columns.
fn field(name: &'static str, data_type: FieldType, mode: FieldMode, description: &'static str) -> (r: FieldSpec)
    ensures
        field_model(r) == (name@, data_type, mode, description@),
        r.fields@.len() == 0,
{
    FieldSpec { name, data_type, mode, description, fields: Vec::new() }
}

/// The columns of the blocks table on a chain with the given schema: the common ones, then
/// those of the schema's chain family.
pub open spec fn blocks_columns(schema: Schema) -> Seq<FieldModel> {
    seq![
        ("chain_id"@, FieldType::Integer, FieldMode::Required, "Chain ID"@),
        ("block_time"@, FieldType::Timestamp, FieldMode::Required, "Timestamp of the current block"@),
        ("block_date"@, FieldType::Date, FieldMode::Required, "Date of the current block"@),
        ("block_number"@, FieldType::Integer, FieldMode::Required, "Number of the current block"@),
        ("block_hash"@, FieldType::String, FieldMode::Required, "Hash of the current block"@),
        ("parent_hash"@, FieldType::String, FieldMode::Required, "Hash of the parent block"@),
        ("nonce"@, FieldType::String, FieldMode::Nullable, "Unique value used to prove block computation in PoW consensus"@),
        ("gas_limit"@, FieldType::Integer, FieldMode::Required, "Maximum gas allowed for the current block"@),
        ("gas_used"@, FieldType::Integer, FieldMode::Required, "Total gas used for the current block"@),
        ("base_fee_per_gas"@, FieldType::Integer, FieldMode::Nullable, "Base fee per gas in the current block"@),
        ("blob_gas_used"@, FieldType::Integer, FieldMode::Nullable, "Amount of blob gas used in the current block"@),
        ("excess_blob_gas"@, FieldType::Integer, FieldMode::Nullable, "Excess blob gas available in the current block"@),
        ("extra_data"@, FieldType::String, FieldMode::Required, "Additional data included by miners in the block"@),
        ("difficulty"@, FieldType::String, FieldMode::Required, "Difficulty of the current block"@),
        ("total_difficulty"@, FieldType::String, FieldMode::Nullable, "Cumulative chain difficulty up to this block"@),
        ("size"@, FieldType::Integer, FieldMode::Nullable, "Size of the current block"@),
        ("miner"@, FieldType::String, FieldMode::Required, "Address of the block rewards beneficiary (miner)"@),
        ("logs_bloom"@, FieldType::String, FieldMode::Required, "Bloom filter for the logs of the current block"@),
        ("sha3_uncles"@, FieldType::String, FieldMode::Required, "Hash of the uncles list for the block"@),
        ("receipts_root"@, FieldType::String, FieldMode::Required, "Root of the receipts trie of the current block"@),
        ("state_root"@, FieldType::String, FieldMode::Required, "Root of the state trie of the current block"@),
        ("transactions_root"@, FieldType::String, FieldMode::Required, "Root of the transactions trie of the current block"@),
        ("withdrawals_root"@, FieldType::String, FieldMode::Nullable, "Root of the withdrawals trie of the current block"@),
    ] + match schema {
        Schema::Ethereum => Seq::empty(),
        Schema::ZKsync => seq![("l1_batch_number"@, FieldType::Integer, FieldMode::Nullable, "Layer 1 batch sequence number"@), ("l1_batch_timestamp"@, FieldType::Timestamp, FieldMode::Nullable, "Timestamp of the Layer 1 batch"@)],
    }
}

/// The columns of the blocks table (see `blocks_columns`).
pub fn block_schema(schema: Schema) -> (r: Vec<FieldSpec>)
    ensures
        field_models(r@) == blocks_columns(schema),
        scalars_flat(r@),
{
    let mut v: Vec<FieldSpec> = Vec::new();
    v.push(field("chain_id", FieldType::Integer, FieldMode::Required, "Chain ID"));
    v.push(field("block_time", FieldType::Timestamp, FieldMode::Required, "Timestamp of the current block"));
    v.push(field("block_date", FieldType::Date, FieldMode::Required, "Date of the current block"));
    v.push(field("block_number", FieldType::Integer, FieldMode::Required, "Number of the current block"));
    v.push(field("block_hash", FieldType::String, FieldMode::Required, "Hash of the current block"));
    v.push(field("parent_hash", FieldType::String, FieldMode::Required, "Hash of the parent block"));
    v.push(field("nonce", FieldType::String, FieldMode::Nullable, "Unique value used to prove block computation in PoW consensus"));
    v.push(field("gas_limit", FieldType::Integer, FieldMode::Required, "Maximum gas allowed for the current block"));
    v.push(field("gas_used", FieldType::Integer, FieldMode::Required, "Total gas used for the current block"));
    v.push(field("base_fee_per_gas", FieldType::Integer, FieldMode::Nullable, "Base fee per gas in the current block"));
    v.push(field("blob_gas_used", FieldType::Integer, FieldMode::Nullable, "Amount of blob gas used in the current block"));
    v.push(field("excess_blob_gas", FieldType::Integer, FieldMode::Nullable, "Excess blob gas available in the current block"));
    v.push(field("extra_data", FieldType::String, FieldMode::Required, "Additional data included by miners in the block"));
    v.push(field("difficulty", FieldType::String, FieldMode::Required, "Difficulty of the current block"));
    v.push(field("total_difficulty", FieldType::String, FieldMode::Nullable, "Cumulative chain difficulty up to this block"));
    v.push(field("size", FieldType::Integer, FieldMode::Nullable, "Size of the current block"));
    v.push(field("miner", FieldType::String, FieldMode::Required, "Address of the block rewards beneficiary (miner)"));
    v.push(field("logs_bloom", FieldType::String, FieldMode::Required, "Bloom filter for the logs of the current block"));
    v.push(field("sha3_uncles", FieldType::String, FieldMode::Required, "Hash of the uncles list for the block"));
    v.push(field("receipts_root", FieldType::String, FieldMode::Required, "Root of the receipts trie of the current block"));
    v.push(field("state_root", FieldType::String, FieldMode::Required, "Root of the state trie of the current block"));
    v.push(field("transactions_root", FieldType::String, FieldMode::Required, "Root of the transactions trie of the current block"));
    v.push(field("withdrawals_root", FieldType::String, FieldMode::Nullable, "Root of the withdrawals trie of the current block"));
    match schema {
        Schema::Ethereum => {
        },
        Schema::ZKsync => {
        v.push(field("l1_batch_number", FieldType::Integer, FieldMode::Nullable, "Layer 1 batch sequence number"));
        v.push(field("l1_batch_timestamp", FieldType::Timestamp, FieldMode::Nullable, "Timestamp of the Layer 1 batch"));
        },
    }
    proof {
        assert(field_models(v@) =~= blocks_columns(schema));
    }
    v
}

/// The columns of the logs table on a chain with the given schema: the common ones, then
/// those of the schema's chain family.
pub open spec fn logs_columns(schema: Schema) -> Seq<FieldModel> {
    seq![
        ("chain_id"@, FieldType::Integer, FieldMode::Required, "Chain ID"@),
        ("block_time"@, FieldType::Timestamp, FieldMode::Nullable, "Timestamp of the current block"@),
        ("block_date"@, FieldType::Date, FieldMode::Nullable, "Date of the current block"@),
        ("block_number"@, FieldType::Integer, FieldMode::Nullable, "Number of the current block"@),
        ("block_hash"@, FieldType::String, FieldMode::Nullable, "Hash of the current block"@),
        ("tx_hash"@, FieldType::String, FieldMode::Nullable, "Hash of the current transaction"@),
        ("tx_index"@, FieldType::Integer, FieldMode::Nullable, "Index of the current transaction in the block"@),
        ("log_index"@, FieldType::Integer, FieldMode::Nullable, "Index of the current log in the transaction"@),
        ("address"@, FieldType::String, FieldMode::Required, "Address of the contract that emitted the log"@),
        ("topics"@, FieldType::String, FieldMode::Repeated, "Topics of the current log"@),
        ("data"@, FieldType::String, FieldMode::Required, "Data of the current log"@),
    ] + match schema {
        Schema::Ethereum => Seq::empty(),
        Schema::ZKsync => Seq::empty(),
    }
}

/// The columns of the logs table (see `logs_columns`).
pub fn log_schema(schema: Schema) -> (r: Vec<FieldSpec>)
    ensures
        field_models(r@) == logs_columns(schema),
        scalars_flat(r@),
{
    let mut v: Vec<FieldSpec> = Vec::new();
    v.push(field("chain_id", FieldType::Integer, FieldMode::Required, "Chain ID"));
    v.push(field("block_time", FieldType::Timestamp, FieldMode::Nullable, "Timestamp of the current block"));
    v.push(field("block_date", FieldType::Date, FieldMode::Nullable, "Date of the current block"));
    v.push(field("block_number", FieldType::Integer, FieldMode::Nullable, "Number of the current block"));
    v.push(field("block_hash", FieldType::String, FieldMode::Nullable, "Hash of the current block"));
    v.push(field("tx_hash", FieldType::String, FieldMode::Nullable, "Hash of the current transaction"));
    v.push(field("tx_index", FieldType::Integer, FieldMode::Nullable, "Index of the current transaction in the block"));
    v.push(field("log_index", FieldType::Integer, FieldMode::Nullable, "Index of the current log in the transaction"));
    v.push(field("address", FieldType::String, FieldMode::Required, "Address of the contract that emitted the log"));
    v.push(field("topics", FieldType::String, FieldMode::Repeated, "Topics of the current log"));
    v.push(field("data", FieldType::String, FieldMode::Required, "Data of the current log"));
    match schema {
        Schema::Ethereum => {
        },
        Schema::ZKsync => {
        },
    }
    proof {
        assert(field_models(v@) =~= logs_columns(schema));
    }
    v
}

/// The columns of the transactions table on a chain with the given schema: the common ones, then
/// those of the schema's chain family.
pub open spec fn transactions_columns(schema: Schema) -> Seq<FieldModel> {
    seq![
        ("chain_id"@, FieldType::Integer, FieldMode::Required, "Chain ID"@),
        ("block_time"@, FieldType::Timestamp, FieldMode::Required, "Timestamp of the current block"@),
        ("block_date"@, FieldType::Date, FieldMode::Required, "Date of the current block"@),
        ("block_number"@, FieldType::Integer, FieldMode::Nullable, "Number of the current block"@),
        ("block_hash"@, FieldType::String, FieldMode::Nullable, "Hash of the current block"@),
        ("tx_hash"@, FieldType::String, FieldMode::Required, "Hash of the current transaction"@),
        ("tx_index"@, FieldType::Integer, FieldMode::Nullable, "Index of the current transaction in the block"@),
        ("tx_type"@, FieldType::Integer, FieldMode::Required, "Transaction type"@),
        ("status"@, FieldType::Boolean, FieldMode::Nullable, "Transaction status"@),
        ("nonce"@, FieldType::Integer, FieldMode::Nullable, "Transaction nonce"@),
        ("from_address"@, FieldType::String, FieldMode::Required, "Transaction sender"@),
        ("to_address"@, FieldType::String, FieldMode::Nullable, "Transaction receiver"@),
        ("contract_address"@, FieldType::String, FieldMode::Nullable, "Address of the contract"@),
        ("input"@, FieldType::String, FieldMode::Nullable, "Input of the current transaction"@),
        ("value"@, FieldType::String, FieldMode::Nullable, "Value of the current transaction"@),
        ("gas_price"@, FieldType::Integer, FieldMode::Nullable, "Gas price of the current transaction"@),
        ("gas_limit"@, FieldType::Integer, FieldMode::Required, "Gas limit of the current transaction"@),
        ("gas_used"@, FieldType::Integer, FieldMode::Required, "Gas used by the current transaction"@),
        ("max_fee_per_gas"@, FieldType::Integer, FieldMode::Nullable, "Maximum total fee per unit of gas willing to be paid"@),
        ("max_priority_fee_per_gas"@, FieldType::Integer, FieldMode::Nullable, "Maximum tip per unit of gas willing to be paid to validator"@),
        ("effective_gas_price"@, FieldType::Integer, FieldMode::Required, "Final gas price paid per unit of gas"@),
        ("cumulative_gas_used"@, FieldType::Integer, FieldMode::Required, "Total gas used in the block up to this transaction"@),
        ("blob_gas_price"@, FieldType::Integer, FieldMode::Nullable, "Price per unit of blob gas for the transaction"@),
        ("blob_gas_used"@, FieldType::Integer, FieldMode::Nullable, "Amount of blob gas used by the transaction"@),
        ("access_list"@, FieldType::Record, FieldMode::Repeated, "List of addresses and storage keys accessed by the transaction"@),
        ("authorization_list"@, FieldType::String, FieldMode::Repeated, "List of authorized addresses for the transaction"@),
        ("blob_versioned_hashes"@, FieldType::String, FieldMode::Repeated, "Version hashes of the blobs included in the transaction"@),
        ("logs_bloom"@, FieldType::String, FieldMode::Required, "Bloom filter containing all transaction logs"@),
    ] + match schema {
        Schema::Ethereum => seq![("max_fee_per_blob_gas"@, FieldType::Integer, FieldMode::Nullable, "Maximum fee per blob gas willing to be paid"@), ("blobs"@, FieldType::String, FieldMode::Repeated, "Blob data associated with the transaction"@), ("commitments"@, FieldType::String, FieldMode::Repeated, "KZG commitments for the transaction blobs"@), ("proofs"@, FieldType::String, FieldMode::Repeated, "KZG proofs for the transaction blobs"@)],
        Schema::ZKsync => seq![("l1_batch_number"@, FieldType::Integer, FieldMode::Nullable, "Batch number on Layer 1"@), ("l1_batch_tx_index"@, FieldType::Integer, FieldMode::Nullable, "Transaction index within the Layer 1 batch"@)],
    }
}

/// The columns inside the `access_list` record of the transactions table.
pub open spec fn transactions_access_list_columns() -> Seq<FieldModel> {
    seq![("address"@, FieldType::String, FieldMode::Required, "Address being accessed"@), ("storage_keys"@, FieldType::String, FieldMode::Repeated, "Storage slots being accessed"@)]
}

/// The columns of the transactions table (see `transactions_columns`).
pub fn transaction_schema(schema: Schema) -> (r: Vec<FieldSpec>)
    ensures
        field_models(r@) == transactions_columns(schema),
        scalars_flat(r@),
        field_models(r@[24].fields@) == transactions_access_list_columns(),
        scalars_flat(r@[24].fields@),
{
    let mut v: Vec<FieldSpec> = Vec::new();
    v.push(field("chain_id", FieldType::Integer, FieldMode::Required, "Chain ID"));
    v.push(field("block_time", FieldType::Timestamp, FieldMode::Required, "Timestamp of the current block"));
    v.push(field("block_date", FieldType::Date, FieldMode::Required, "Date of the current block"));
    v.push(field("block_number", FieldType::Integer, FieldMode::Nullable, "Number of the current block"));
    v.push(field("block_hash", FieldType::String, FieldMode::Nullable, "Hash of the current block"));
    v.push(field("tx_hash", FieldType::String, FieldMode::Required, "Hash of the current transaction"));
    v.push(field("tx_index", FieldType::Integer, FieldMode::Nullable, "Index of the current transaction in the block"));
    v.push(field("tx_type", FieldType::Integer, FieldMode::Required, "Transaction type"));
    v.push(field("status", FieldType::Boolean, FieldMode::Nullable, "Transaction status"));
    v.push(field("nonce", FieldType::Integer, FieldMode::Nullable, "Transaction nonce"));
    v.push(field("from_address", FieldType::String, FieldMode::Required, "Transaction sender"));
    v.push(field("to_address", FieldType::String, FieldMode::Nullable, "Transaction receiver"));
    v.push(field("contract_address", FieldType::String, FieldMode::Nullable, "Address of the contract"));
    v.push(field("input", FieldType::String, FieldMode::Nullable, "Input of the current transaction"));
    v.push(field("value", FieldType::String, FieldMode::Nullable, "Value of the current transaction"));
    v.push(field("gas_price", FieldType::Integer, FieldMode::Nullable, "Gas price of the current transaction"));
    v.push(field("gas_limit", FieldType::Integer, FieldMode::Required, "Gas limit of the current transaction"));
    v.push(field("gas_used", FieldType::Integer, FieldMode::Required, "Gas used by the current transaction"));
    v.push(field("max_fee_per_gas", FieldType::Integer, FieldMode::Nullable, "Maximum total fee per unit of gas willing to be paid"));
    v.push(field("max_priority_fee_per_gas", FieldType::Integer, FieldMode::Nullable, "Maximum tip per unit of gas willing to be paid to validator"));
    v.push(field("effective_gas_price", FieldType::Integer, FieldMode::Required, "Final gas price paid per unit of gas"));
    v.push(field("cumulative_gas_used", FieldType::Integer, FieldMode::Required, "Total gas used in the block up to this transaction"));
    v.push(field("blob_gas_price", FieldType::Integer, FieldMode::Nullable, "Price per unit of blob gas for the transaction"));
    v.push(field("blob_gas_used", FieldType::Integer, FieldMode::Nullable, "Amount of blob gas used by the transaction"));
    let mut inner: Vec<FieldSpec> = Vec::new();
    inner.push(field("address", FieldType::String, FieldMode::Required, "Address being accessed"));
    inner.push(field("storage_keys", FieldType::String, FieldMode::Repeated, "Storage slots being accessed"));
    proof {
        assert(field_models(inner@) =~= transactions_access_list_columns());
    }
    v.push(FieldSpec { name: "access_list", data_type: FieldType::Record, mode: FieldMode::Repeated, description: "List of addresses and storage keys accessed by the transaction", fields: inner });
    v.push(field("authorization_list", FieldType::String, FieldMode::Repeated, "List of authorized addresses for the transaction"));
    v.push(field("blob_versioned_hashes", FieldType::String, FieldMode::Repeated, "Version hashes of the blobs included in the transaction"));
    v.push(field("logs_bloom", FieldType::String, FieldMode::Required, "Bloom filter containing all transaction logs"));
    match schema {
        Schema::Ethereum => {
        v.push(field("max_fee_per_blob_gas", FieldType::Integer, FieldMode::Nullable, "Maximum fee per blob gas willing to be paid"));
        v.push(field("blobs", FieldType::String, FieldMode::Repeated, "Blob data associated with the transaction"));
        v.push(field("commitments", FieldType::String, FieldMode::Repeated, "KZG commitments for the transaction blobs"));
        v.push(field("proofs", FieldType::String, FieldMode::Repeated, "KZG proofs for the transaction blobs"));
        },
        Schema::ZKsync => {
        v.push(field("l1_batch_number", FieldType::Integer, FieldMode::Nullable, "Batch number on Layer 1"));
        v.push(field("l1_batch_tx_index", FieldType::Integer, FieldMode::Nullable, "Transaction index within the Layer 1 batch"));
        },
    }
    proof {
        assert(field_models(v@) =~= transactions_columns(schema));
    }
    v
}

/// The columns of the traces table on a chain with the given schema: the common ones, then
/// those of the schema's chain family.
pub open spec fn traces_columns(schema: Schema) -> Seq<FieldModel> {
    seq![
        ("chain_id"@, FieldType::Integer, FieldMode::Required, "Chain ID"@),
        ("block_time"@, FieldType::Timestamp, FieldMode::Required, "Timestamp of the current block"@),
        ("block_date"@, FieldType::Date, FieldMode::Required, "Date of the current block"@),
        ("block_number"@, FieldType::Integer, FieldMode::Nullable, "Number of the current block"@),
        ("block_hash"@, FieldType::String, FieldMode::Nullable, "Hash of the current block"@),
        ("tx_hash"@, FieldType::String, FieldMode::Nullable, "Hash of the transaction containing this trace"@),
        ("tx_index"@, FieldType::Integer, FieldMode::Nullable, "Index of the transaction containing this trace"@),
        ("trace_type"@, FieldType::String, FieldMode::Required, "Trace operation type"@),
        ("subtraces"@, FieldType::Integer, FieldMode::Required, "Number of subtraces in the trace"@),
        ("trace_address"@, FieldType::String, FieldMode::Repeated, "Array of indices defining the trace's position in the call tree"@),
        ("from_address"@, FieldType::String, FieldMode::Required, "Address initiating the trace call"@),
        ("to_address"@, FieldType::String, FieldMode::Nullable, "Address receiving the trace call"@),
        ("value"@, FieldType::String, FieldMode::Nullable, "Value transferred in the trace call"@),
        ("gas"@, FieldType::String, FieldMode::Required, "Gas allocated for the trace execution"@),
        ("gas_used"@, FieldType::String, FieldMode::Required, "Gas consumed by the trace execution"@),
        ("input"@, FieldType::String, FieldMode::Required, "Input data for the trace call"@),
        ("output"@, FieldType::String, FieldMode::Nullable, "Output data from the trace execution"@),
        ("error"@, FieldType::String, FieldMode::Nullable, "Error message if the trace execution failed"@),
    ] + match schema {
        Schema::Ethereum => Seq::empty(),
        Schema::ZKsync => Seq::empty(),
    }
}

/// The columns of the traces table (see `traces_columns`).
pub fn trace_schema(schema: Schema) -> (r: Vec<FieldSpec>)
    ensures
        field_models(r@) == traces_columns(schema),
        scalars_flat(r@),
{
    let mut v: Vec<FieldSpec> = Vec::new();
    v.push(field("chain_id", FieldType::Integer, FieldMode::Required, "Chain ID"));
    v.push(field("block_time", FieldType::Timestamp, FieldMode::Required, "Timestamp of the current block"));
    v.push(field("block_date", FieldType::Date, FieldMode::Required, "Date of the current block"));
    v.push(field("block_number", FieldType::Integer, FieldMode::Nullable, "Number of the current block"));
    v.push(field("block_hash", FieldType::String, FieldMode::Nullable, "Hash of the current block"));
    v.push(field("tx_hash", FieldType::String, FieldMode::Nullable, "Hash of the transaction containing this trace"));
    v.push(field("tx_index", FieldType::Integer, FieldMode::Nullable, "Index of the transaction containing this trace"));
    v.push(field("trace_type", FieldType::String, FieldMode::Required, "Trace operation type"));
    v.push(field("subtraces", FieldType::Integer, FieldMode::Required, "Number of subtraces in the trace"));
    v.push(field("trace_address", FieldType::String, FieldMode::Repeated, "Array of indices defining the trace's position in the call tree"));
    v.push(field("from_address", FieldType::String, FieldMode::Required, "Address initiating the trace call"));
    v.push(field("to_address", FieldType::String, FieldMode::Nullable, "Address receiving the trace call"));
    v.push(field("value", FieldType::String, FieldMode::Nullable, "Value transferred in the trace call"));
    v.push(field("gas", FieldType::String, FieldMode::Required, "Gas allocated for the trace execution"));
    v.push(field("gas_used", FieldType::String, FieldMode::Required, "Gas consumed by the trace execution"));
    v.push(field("input", FieldType::String, FieldMode::Required, "Input data for the trace call"));
    v.push(field("output", FieldType::String, FieldMode::Nullable, "Output data from the trace execution"));
    v.push(field("error", FieldType::String, FieldMode::Nullable, "Error message if the trace execution failed"));
    match schema {
        Schema::Ethereum => {
        },
        Schema::ZKsync => {
        },
    }
    proof {
        assert(field_models(v@) =~= traces_columns(schema));
    }
    v
}

} // verus!
