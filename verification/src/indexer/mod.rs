pub mod rpc;
pub mod transformations;

use vstd::prelude::*;

use crate::indexer::transformations::blocks::{block_from_header, headers_fit_schema, transform_blocks};
use crate::indexer::transformations::logs::{first_keyless_log, log_key_error, log_row_from, transform_logs};
use crate::indexer::transformations::traces::{
    block_entry, block_map, trace_row_from, transform_traces, tx_entry, tx_index_map, BlockInfo,
    TxIndexEntry,
};
use crate::indexer::transformations::transactions::{
    pair_count, transactions_fit_schema, transform_transactions, tx_row_from,
};
use crate::models::common::ChainInfo;
use crate::models::datasets::blocks::{RpcHeaderData, TransformedBlockData};
use crate::models::datasets::logs::{log_common, RpcLogReceiptData, TransformedLogData};
use crate::models::datasets::traces::{trace_common, RpcTraceData, TransformedTraceData};
use crate::models::datasets::transactions::{
    RpcTransactionData, RpcTransactionReceiptData, TransformedTransactionData,
};
use crate::indexer::rpc::blocks::{
    first_tx_stop, header_error, lemma_first_tx_stop_stops, header_from, parse_header, parse_transactions, tx_data_from,
    tx_error, tx_panics,
};
use crate::indexer::rpc::receipts::{
    log_data_from, parse_log_receipts, parse_transaction_receipts, receipt_batch_fields_valid,
    receipt_data, receipts_logs,
};
use crate::indexer::rpc::traces::{
    has_js_null, parse_traces, result_nodes, results_nodes, trace_from_frame, traces_from_traced_nodes,
    traces_readable, TracedNode,
};
use crate::models::common::Schema;
use crate::models::errors::{IndexerError, KeyField};
use crate::models::rpc::{
    RawBlock, RawBlockTransactions, RawLog, RawReceipt, RawTrace, RawTraceResult, RawTxEnvelope,
};
use crate::models::types::B256;
use crate::text::{occurs_in, str_contains};
use crate::utils::Table;

verus! {

/// What one block's RPC responses parse into.
#[derive(Debug, Clone)]
pub struct ParsedData {
    pub header: Vec<RpcHeaderData>,
    pub transactions: Vec<RpcTransactionData>,
    pub transaction_receipts: Vec<RpcTransactionReceiptData>,
    pub logs: Vec<RpcLogReceiptData>,
    pub traces: Vec<RpcTraceData>,
}

/// The rows of one block, ready to be stored.
#[derive(Debug)]
pub struct TransformedData {
    pub blocks: Vec<TransformedBlockData>,
    pub transactions: Vec<TransformedTransactionData>,
    pub logs: Vec<TransformedLogData>,
    pub traces: Vec<TransformedTraceData>,
}

/// Whether parsing a block's transactions, once its header parsed, never reaches a
/// transaction that gives no result (see `tx_panics`).
pub open spec fn block_transactions_parse(b: RawBlock, schema: Schema) -> bool {
    b.transactions matches RawBlockTransactions::Full(txs) ==> (first_tx_stop(txs@, schema) < txs@.len()
        ==> !tx_panics(txs@[first_tx_stop(txs@, schema)], schema))
}

/// The error that parsing a block gives, if any: its header's, then its first failing
/// transaction's, or the error of a block without full transactions.
pub open spec fn block_error(b: RawBlock, schema: Schema) -> Option<IndexerError> {
    if header_error(b, schema) is Some {
        header_error(b, schema)
    } else {
        match b.transactions {
            RawBlockTransactions::Hashes(_) => Some(IndexerError::Block(crate::models::errors::BlockError::TransactionHashesOnly)),
            RawBlockTransactions::Uncle => Some(IndexerError::Block(crate::models::errors::BlockError::UncleBlocksNotSupported)),
            RawBlockTransactions::Full(txs) => if first_tx_stop(txs@, schema) < txs@.len() {
                tx_error(txs@[first_tx_stop(txs@, schema)], schema)
            } else {
                None
            },
        }
    }
}

/// Parses the responses fetched for one block: the block into its header and transactions,
/// the receipts into receipts and logs, the trace results into traces (see `parse_header`,
/// `parse_transactions`, `parse_transaction_receipts`, `parse_log_receipts` and
/// `parse_traces`). A response that was not fetched gives empty lists. Only the block can
/// fail (see `block_error`).
pub fn parse_data(
    chain_info: &ChainInfo,
    block_number: u64,
    block: Option<RawBlock>,
    receipts: Option<Vec<RawReceipt>>,
    traces: Option<Vec<RawTraceResult>>,
) -> (r: Result<ParsedData, IndexerError>)
    requires
        block matches Some(b) ==> (header_error(b, chain_info.schema) is None ==> block_transactions_parse(b, chain_info.schema)),
        receipts matches Some(rs) ==> (chain_info.schema == Schema::ZKsync ==> forall|i: int| 0 <= i < rs@.len() ==> receipt_batch_fields_valid(#[trigger] rs@[i])),
        traces matches Some(ts) ==> traces_readable(ts@),
    ensures
        r is Err <==> (block matches Some(b) && block_error(b, chain_info.schema) is Some),
        r matches Err(e) ==> block matches Some(b) && e == block_error(b, chain_info.schema).unwrap(),
        r matches Ok(p) ==> {
            let schema = chain_info.schema;
            &&& match block {
                Some(b) => {
                    &&& p.header@.len() == 1 && header_from(p.header@[0], b, schema)
                    &&& b.transactions matches RawBlockTransactions::Full(txs) && p.transactions@.len() == txs@.len()
                        && forall|i: int| 0 <= i < txs@.len() ==> tx_data_from(#[trigger] p.transactions@[i], txs@[i], schema)
                },
                None => p.header@.len() == 0 && p.transactions@.len() == 0,
            }
            &&& match receipts {
                Some(rs) => {
                    &&& p.transaction_receipts@.len() == rs@.len()
                    &&& forall|i: int| 0 <= i < rs@.len() ==> #[trigger] p.transaction_receipts@[i] == receipt_data(rs@[i], schema)
                    &&& p.logs@.len() == receipts_logs(rs@).len()
                    &&& forall|i: int| 0 <= i < p.logs@.len() ==> log_data_from(#[trigger] p.logs@[i], receipts_logs(rs@)[i], schema)
                },
                None => p.transaction_receipts@.len() == 0 && p.logs@.len() == 0,
            }
            &&& match traces {
                Some(ts) => if has_js_null(ts@) {
                    p.traces@.len() == 0
                } else {
                    traces_from_traced_nodes(p.traces@, results_nodes(ts@), schema, block_number)
                },
                None => p.traces@.len() == 0,
            }
        },
{
    let schema = chain_info.schema;
    let (header, transactions) = match block {
        Some(b) => {
            let header = match parse_header(&b, schema) {
                Ok(h) => h,
                Err(e) => return Err(e),
            };
            proof {
                if b.transactions is Full {
                    lemma_first_tx_stop_stops(b.transactions->Full_0@, schema);
                }
            }
            let transactions = match parse_transactions(b, schema) {
                Ok(t) => t,
                Err(e) => return Err(e),
            };
            (header, transactions)
        },
        None => (Vec::new(), Vec::new()),
    };
    let (transaction_receipts, logs) = match receipts {
        Some(rs) => {
            let parsed = match parse_transaction_receipts(&rs, schema) {
                Ok(v) => v,
                Err(e) => return Err(e),
            };
            let logs = match parse_log_receipts(rs, schema) {
                Ok(v) => v,
                Err(e) => return Err(e),
            };
            (parsed, logs)
        },
        None => (Vec::new(), Vec::new()),
    };
    let traces = match traces {
        Some(ts) => match parse_traces(ts, schema, block_number) {
            Ok(v) => v,
            Err(e) => return Err(e),
        },
        None => Vec::new(),
    };
    Ok(ParsedData { header, transactions, transaction_receipts, logs, traces })
}

/// Whether a table is among the active datasets.
pub fn contains_table(tables: &[Table], t: Table) -> (r: bool)
    ensures
        r == tables@.contains(t),
{
    let mut i: usize = 0;
    while i < tables.len()
        invariant
            i <= tables@.len(),
            forall|k: int| 0 <= k < i ==> tables@[k] != t,
        decreases tables@.len() - i,
    {
        if tables[i] == t {
            assert(tables@[i as int] == t);
            return true;
        }
        i = i + 1;
    }
    false
}

/// The block lookup table of a list of headers.
pub open spec fn block_entries(headers: Seq<RpcHeaderData>) -> Seq<BlockInfo> {
    Seq::new(headers.len(), |i: int| block_entry(headers[i]))
}

/// The transaction index lookup table of a list of transactions.
pub open spec fn tx_entries(txs: Seq<RpcTransactionData>) -> Seq<TxIndexEntry> {
    Seq::new(txs.len(), |i: int| tx_entry(txs[i]))
}

/// Whether the logs are turned into rows: the logs table is active and there are logs.
pub open spec fn logs_wanted(p: ParsedData, active: Seq<Table>) -> bool {
    active.contains(Table::Logs) && p.logs@.len() > 0
}

/// Whether the traces are turned into rows: the traces table is active and there are traces.
pub open spec fn traces_wanted(p: ParsedData, active: Seq<Table>) -> bool {
    active.contains(Table::Traces) && p.traces@.len() > 0
}

/// Whether the transactions are turned into rows: the transactions table is active and there
/// are transactions.
pub open spec fn transactions_wanted(p: ParsedData, active: Seq<Table>) -> bool {
    active.contains(Table::Transactions) && p.transactions@.len() > 0
}

/// Whether every log has its full primary key.
pub open spec fn logs_keyed(logs: Seq<RpcLogReceiptData>) -> bool {
    forall|i: int| 0 <= i < logs.len() ==> (#[trigger] log_key_error(log_common(logs[i]))) is None
}

/// Whether every trace has its transaction hash.
pub open spec fn traces_hashed(traces: Seq<RpcTraceData>) -> bool {
    forall|i: int| 0 <= i < traces.len() ==> (#[trigger] trace_common(traces[i])).tx_hash is Some
}

/// Whether the parsed data has the layouts that the chain's schema asks of the tables
/// that are transformed.
pub open spec fn parsed_fits_schema(p: ParsedData, chain: ChainInfo, active: Seq<Table>) -> bool {
    &&& active.contains(Table::Blocks) ==> headers_fit_schema(p.header@, chain.schema)
    &&& transactions_wanted(p, active) ==> transactions_fit_schema(
        p.transactions@,
        p.transaction_receipts@.len() as int,
        chain.schema,
    )
}

/// Turns one block's parsed data into the rows of the active tables. A table that is not
/// active, or (but for blocks) has no parsed data, gets no rows. Blocks, transactions, logs
/// and traces become rows as `transform_blocks`, `transform_transactions`, `transform_logs`
/// and `transform_traces` say, the last two looking blocks up by number among the headers and
/// transaction indexes by hash among the transactions. The logs' error comes before the
/// traces'.
pub fn transform_data(chain_info: &ChainInfo, parsed_data: ParsedData, active_datasets: &[Table]) -> (r: Result<
    TransformedData,
    IndexerError,
>)
    requires
        parsed_fits_schema(parsed_data, *chain_info, active_datasets@),
    ensures
        r is Ok <==> (logs_wanted(parsed_data, active_datasets@) ==> logs_keyed(parsed_data.logs@)) && (
        traces_wanted(parsed_data, active_datasets@) ==> traces_hashed(parsed_data.traces@)),
        r matches Err(e) ==> if logs_wanted(parsed_data, active_datasets@) && !logs_keyed(parsed_data.logs@) {
            e == (IndexerError::MissingKeyField {
                field: log_key_error(log_common(parsed_data.logs@[first_keyless_log(parsed_data.logs@)])).unwrap(),
            })
        } else {
            e == (IndexerError::MissingKeyField { field: KeyField::TxHash })
        },
        r matches Ok(d) ==> {
            let p = parsed_data;
            let blocks = block_entries(p.header@);
            &&& if active_datasets@.contains(Table::Blocks) {
                &&& d.blocks@.len() == p.header@.len()
                &&& forall|i: int| 0 <= i < p.header@.len() ==> block_from_header(#[trigger] d.blocks@[i], p.header@[i], chain_info.schema, chain_info.id)
            } else {
                d.blocks@.len() == 0
            }
            &&& if transactions_wanted(p, active_datasets@) {
                &&& d.transactions@.len() == pair_count(p.transactions@.len() as int, p.transaction_receipts@.len() as int)
                &&& forall|i: int| 0 <= i < d.transactions@.len() ==> tx_row_from(#[trigger] d.transactions@[i], p.transactions@[i], p.transaction_receipts@[i], *chain_info, blocks)
            } else {
                d.transactions@.len() == 0
            }
            &&& if logs_wanted(p, active_datasets@) {
                &&& d.logs@.len() == p.logs@.len()
                &&& forall|i: int| 0 <= i < p.logs@.len() ==> log_row_from(#[trigger] d.logs@[i], p.logs@[i], chain_info.schema, chain_info.id)
            } else {
                d.logs@.len() == 0
            }
            &&& if traces_wanted(p, active_datasets@) {
                &&& d.traces@.len() == p.traces@.len()
                &&& forall|i: int| 0 <= i < p.traces@.len() ==> trace_row_from(#[trigger] d.traces@[i], p.traces@[i], *chain_info, blocks, tx_entries(p.transactions@))
            } else {
                d.traces@.len() == 0
            }
        },
{
    let ghost p = parsed_data;
    let ParsedData { header, transactions, transaction_receipts, logs, traces } = parsed_data;
    let blocks_lookup = block_map(&header);
    let tx_lookup = tx_index_map(&transactions);
    proof {
        assert(blocks_lookup@ =~= block_entries(p.header@));
        assert(tx_lookup@ =~= tx_entries(p.transactions@));
    }
    let blocks = if contains_table(active_datasets, Table::Blocks) {
        match transform_blocks(header, chain_info.schema, chain_info.id) {
            Ok(v) => v,
            Err(e) => return Err(e),
        }
    } else {
        Vec::new()
    };
    let txs = if contains_table(active_datasets, Table::Transactions) && transactions.len() > 0 {
        match transform_transactions(transactions, transaction_receipts, chain_info, &blocks_lookup) {
            Ok(v) => v,
            Err(e) => return Err(e),
        }
    } else {
        Vec::new()
    };
    let log_rows = if contains_table(active_datasets, Table::Logs) && logs.len() > 0 {
        match transform_logs(logs, chain_info.schema, chain_info.id) {
            Ok(v) => v,
            Err(e) => return Err(e),
        }
    } else {
        Vec::new()
    };
    let trace_rows = if contains_table(active_datasets, Table::Traces) && traces.len() > 0 {
        match transform_traces(traces, chain_info, &blocks_lookup, &tx_lookup) {
            Ok(v) => v,
            Err(e) => return Err(e),
        }
    } else {
        Vec::new()
    };
    Ok(TransformedData { blocks, transactions: txs, logs: log_rows, traces: trace_rows })
}

/// Which responses a block needs for the active datasets: the block for blocks, transactions
/// and traces (the traced transactions' hashes, and the block and transaction fields of a
/// trace row, come from it), the receipts for logs and transactions, the traces for traces.
#[derive(Debug, Clone, Copy, PartialEq, Eq, Structural)]
pub struct FetchPlan {
    pub need_block: bool,
    pub need_receipts: bool,
    pub need_traces: bool,
}

/// The responses to fetch for the active datasets.
pub fn fetch_plan(datasets: &[Table]) -> (r: FetchPlan)
    ensures
        r.need_block == (datasets@.contains(Table::Blocks) || datasets@.contains(Table::Transactions)
            || datasets@.contains(Table::Traces)),
        r.need_receipts == (datasets@.contains(Table::Logs) || datasets@.contains(Table::Transactions)),
        r.need_traces == datasets@.contains(Table::Traces),
{
    let blocks = contains_table(datasets, Table::Blocks);
    let transactions = contains_table(datasets, Table::Transactions);
    let logs = contains_table(datasets, Table::Logs);
    let traces = contains_table(datasets, Table::Traces);
    FetchPlan { need_block: blocks || transactions || traces, need_receipts: logs || transactions, need_traces: traces }
}

/// The hash of a transaction, whatever its envelope.
pub open spec fn envelope_hash(e: RawTxEnvelope) -> B256 {
    match e {
        RawTxEnvelope::Legacy(g) => g.hash,
        RawTxEnvelope::Eip2930(g) => g.hash,
        RawTxEnvelope::Eip1559(x) => x.hash,
        RawTxEnvelope::Eip4844(x) => x.hash,
        RawTxEnvelope::Eip7702(x) => x.hash,
        RawTxEnvelope::Unknown(u) => u.hash,
    }
}

/// The hashes of a block's full transactions, in order; none for a block without them.
pub open spec fn block_tx_hashes(b: RawBlock) -> Seq<B256> {
    match b.transactions {
        RawBlockTransactions::Full(txs) => Seq::new(txs@.len(), |i: int| envelope_hash(txs@[i].envelope)),
        _ => Seq::empty(),
    }
}

/// The hashes of the transactions to trace (see `block_tx_hashes`).
pub fn transaction_hashes(block: &RawBlock) -> (r: Vec<B256>)
    ensures
        r@ == block_tx_hashes(*block),
{
    let mut out: Vec<B256> = Vec::new();
    match &block.transactions {
        RawBlockTransactions::Full(txs) => {
            let mut i: usize = 0;
            while i < txs.len()
                invariant
                    block.transactions == RawBlockTransactions::Full(*txs),
                    i <= txs@.len(),
                    out@.len() == i,
                    forall|k: int| 0 <= k < i ==> #[trigger] out@[k] == envelope_hash(txs@[k].envelope),
                decreases txs@.len() - i,
            {
                let h = match &txs[i].envelope {
                    RawTxEnvelope::Legacy(g) => g.hash,
                    RawTxEnvelope::Eip2930(g) => g.hash,
                    RawTxEnvelope::Eip1559(x) => x.hash,
                    RawTxEnvelope::Eip4844(x) => x.hash,
                    RawTxEnvelope::Eip7702(x) => x.hash,
                    RawTxEnvelope::Unknown(u) => u.hash,
                };
                out.push(h);
                i = i + 1;
            }
            assert(out@ =~= block_tx_hashes(*block));
        },
        _ => {
            assert(out@ =~= block_tx_hashes(*block));
        },
    }
    out
}

/// How many transactions are traced at once.
pub const TRACE_BATCH_SIZE: usize = 10;

/// The concatenation of a list of lists.
pub open spec fn flatten_batches(b: Seq<Vec<B256>>) -> Seq<B256>
    decreases b.len(),
{
    if b.len() == 0 {
        Seq::empty()
    } else {
        flatten_batches(b.drop_last()) + b.last()@
    }
}

/// The hashes to trace split, in order, into batches of `TRACE_BATCH_SIZE`; only the last
/// batch may be shorter, and none is empty.
pub fn trace_batches(hashes: &Vec<B256>) -> (r: Vec<Vec<B256>>)
    ensures
        flatten_batches(r@) == hashes@,
        forall|i: int| 0 <= i < r@.len() ==> 0 < (#[trigger] r@[i])@.len() <= TRACE_BATCH_SIZE,
        forall|i: int| 0 <= i < r@.len() - 1 ==> (#[trigger] r@[i])@.len() == TRACE_BATCH_SIZE,
{
    let mut out: Vec<Vec<B256>> = Vec::new();
    let mut i: usize = 0;
    while i < hashes.len()
        invariant
            i <= hashes@.len(),
            flatten_batches(out@) == hashes@.take(i as int),
            forall|k: int| 0 <= k < out@.len() ==> 0 < (#[trigger] out@[k])@.len() <= TRACE_BATCH_SIZE,
            forall|k: int| 0 <= k < out@.len() - 1 ==> (#[trigger] out@[k])@.len() == TRACE_BATCH_SIZE,
            out@.len() > 0 && out@.last()@.len() < TRACE_BATCH_SIZE ==> i == hashes@.len(),
        decreases hashes@.len() - i,
    {
        let mut batch: Vec<B256> = Vec::new();
        let start = i;
        while i < hashes.len() && batch.len() < TRACE_BATCH_SIZE
            invariant
                start <= i <= hashes@.len(),
                batch@ == hashes@.subrange(start as int, i as int),
                batch@.len() <= TRACE_BATCH_SIZE,
            decreases hashes@.len() - i,
        {
            batch.push(hashes[i]);
            i = i + 1;
        }
        proof {
            let nb = out@.push(batch);
            assert(nb.drop_last() =~= out@);
            assert(hashes@.take(i as int) =~= hashes@.take(start as int) + batch@);
        }
        out.push(batch);
    }
    assert(hashes@.take(hashes@.len() as int) =~= hashes@);
    out
}

/// What tracing one transaction gave: its trace, or the error message of a failed request.
#[derive(Debug)]
pub enum TraceOutcome {
    Traced { tx_hash: B256, trace: RawTrace },
    Failed { tx_hash: B256, message: String },
}

/// Whether a failed trace request failed because the trace is too large (JSON-RPC error
/// `-32008`); such transactions are skipped.
pub open spec fn is_oversized(message: Seq<char>) -> bool {
    occurs_in(message, "-32008"@)
}

/// Whether a trace request failed for a reason other than the trace's size.
pub open spec fn is_fatal(o: TraceOutcome) -> bool {
    o matches TraceOutcome::Failed { message, .. } && !is_oversized(message@)
}

/// The trace results that a list of outcomes contributes: one for each trace, in order.
pub open spec fn traced_results(outcomes: Seq<TraceOutcome>) -> Seq<RawTraceResult>
    decreases outcomes.len(),
{
    if outcomes.len() == 0 {
        Seq::empty()
    } else {
        let rest = traced_results(outcomes.drop_last());
        match outcomes.last() {
            TraceOutcome::Traced { tx_hash, trace } => rest.push(RawTraceResult::Success { result: trace, tx_hash: Some(tx_hash) }),
            TraceOutcome::Failed { .. } => rest,
        }
    }
}

/// Whether a message carries the JSON-RPC error code `-32008` (response too big).
pub open spec fn carries_oversized_code(message: Seq<char>) -> bool {
    exists|p: int| 0 <= p && p + 6 <= message.len() && #[trigger] message.subrange(p, p + 6) == seq!['-', '3', '2', '0', '0', '8']
}

/// Whether an outcome is a failure whose message does not carry the code `-32008`.
pub open spec fn fails_other_than_oversized(o: TraceOutcome) -> bool {
    o matches TraceOutcome::Failed { message, .. } && !carries_oversized_code(message@)
}

proof fn lemma_oversized_is_code(message: Seq<char>)
    ensures
        is_oversized(message) <==> carries_oversized_code(message),
{
    reveal_strlit("-32008");
    let code = seq!['-', '3', '2', '0', '0', '8'];
    assert("-32008"@ =~= code);
    if is_oversized(message) {
        let i = choose|i: int| 0 <= i <= message.len() - code.len() && #[trigger] message.subrange(i, i + code.len()) == code;
        assert(message.subrange(i, i + 6) == code);
    }
    if carries_oversized_code(message) {
        let p = choose|p: int| 0 <= p && p + 6 <= message.len() && #[trigger] message.subrange(p, p + 6) == code;
        assert(message.subrange(p, p + code.len()) == code);
    }
}

/// A batch of trace outcomes stops at its first failure whose message lacks the code
/// `-32008`: every outcome before it succeeded or failed with that code, and the outcome
/// there (if the batch has one) is such a failure.
pub proof fn lemma_first_fatal_is_first_other_failure(outcomes: Seq<TraceOutcome>)
    ensures
        0 <= first_fatal(outcomes) <= outcomes.len(),
        forall|j: int| 0 <= j < first_fatal(outcomes) ==> !fails_other_than_oversized(#[trigger] outcomes[j]),
        first_fatal(outcomes) < outcomes.len() ==> fails_other_than_oversized(outcomes[first_fatal(outcomes)]),
    decreases outcomes.len(),
{
    if outcomes.len() > 0 {
        let rest = outcomes.drop_first();
        lemma_first_fatal_is_first_other_failure(rest);
        if let TraceOutcome::Failed { message, .. } = outcomes[0] {
            lemma_oversized_is_code(message@);
        }
        if !is_fatal(outcomes[0]) {
            assert forall|j: int| 0 <= j < first_fatal(outcomes) implies !fails_other_than_oversized(#[trigger] outcomes[j]) by {
                if j > 0 {
                    assert(outcomes[j] == rest[j - 1]);
                }
            }
            if first_fatal(outcomes) < outcomes.len() {
                assert(outcomes[first_fatal(outcomes)] == rest[first_fatal(rest)]);
            }
        }
    }
}

/// The results kept from a batch are exactly its successful traces: each successful outcome
/// gives a result with its trace and transaction hash, every result comes from one, and
/// failures give none.
pub proof fn lemma_traced_results_are_the_successes(outcomes: Seq<TraceOutcome>)
    ensures
        traced_results(outcomes).len() <= outcomes.len(),
        forall|j: int| 0 <= j < outcomes.len() && (#[trigger] outcomes[j]) is Traced ==> traced_results(outcomes).contains(
            RawTraceResult::Success { result: outcomes[j]->Traced_trace, tx_hash: Some(outcomes[j]->Traced_tx_hash) },
        ),
        forall|i: int| 0 <= i < traced_results(outcomes).len() ==> exists|j: int|
            0 <= j < outcomes.len() && (#[trigger] outcomes[j]) is Traced && #[trigger] traced_results(outcomes)[i]
                == (RawTraceResult::Success { result: outcomes[j]->Traced_trace, tx_hash: Some(outcomes[j]->Traced_tx_hash) }),
    decreases outcomes.len(),
{
    if outcomes.len() > 0 {
        let init = outcomes.drop_last();
        let n = outcomes.len() - 1;
        lemma_traced_results_are_the_successes(init);
        let rest = traced_results(init);
        let all = traced_results(outcomes);
        assert forall|j: int| 0 <= j < outcomes.len() && (#[trigger] outcomes[j]) is Traced implies all.contains(
            RawTraceResult::Success { result: outcomes[j]->Traced_trace, tx_hash: Some(outcomes[j]->Traced_tx_hash) },
        ) by {
            let x = RawTraceResult::Success { result: outcomes[j]->Traced_trace, tx_hash: Some(outcomes[j]->Traced_tx_hash) };
            if j < n {
                assert(init[j] == outcomes[j]);
                assert(rest.contains(x));
                let k = choose|k: int| 0 <= k < rest.len() && rest[k] == x;
                assert(all[k] == x);
            } else {
                assert(all[all.len() - 1] == x);
            }
        }
        assert forall|i: int| 0 <= i < all.len() implies exists|j: int|
            0 <= j < outcomes.len() && (#[trigger] outcomes[j]) is Traced && #[trigger] all[i]
                == (RawTraceResult::Success { result: outcomes[j]->Traced_trace, tx_hash: Some(outcomes[j]->Traced_tx_hash) }) by {
            if i < rest.len() {
                assert(all[i] == rest[i]);
                let j = choose|j: int|
                    0 <= j < init.len() && (#[trigger] init[j]) is Traced && #[trigger] rest[i]
                        == (RawTraceResult::Success { result: init[j]->Traced_trace, tx_hash: Some(init[j]->Traced_tx_hash) });
                assert(outcomes[j] == init[j]);
            } else {
                assert(outcomes[n] is Traced);
            }
        }
    }
}

/// The position of the first fatal outcome (the list's length if none).
pub open spec fn first_fatal(outcomes: Seq<TraceOutcome>) -> int
    decreases outcomes.len(),
{
    if outcomes.len() == 0 {
        0
    } else if is_fatal(outcomes[0]) {
        0
    } else {
        1 + first_fatal(outcomes.drop_first())
    }
}

proof fn lemma_first_fatal(outcomes: Seq<TraceOutcome>, i: int)
    requires
        0 <= i <= outcomes.len(),
        i < outcomes.len() ==> is_fatal(outcomes[i]),
        forall|k: int| 0 <= k < i ==> !is_fatal(#[trigger] outcomes[k]),
    ensures
        first_fatal(outcomes) == i,
    decreases i,
{
    if i > 0 {
        assert(!is_fatal(outcomes[0]));
        assert forall|k: int| 0 <= k < i - 1 implies !is_fatal(#[trigger] outcomes.drop_first()[k]) by {
            assert(outcomes.drop_first()[k] == outcomes[k + 1]);
        }
        lemma_first_fatal(outcomes.drop_first(), i - 1);
    }
}

/// Adds one batch of trace outcomes to the results: each trace, in order, as a successful
/// result of its transaction; a request that failed because the trace is too large is
/// skipped; at the first request that failed otherwise, its message is returned and the
/// outcomes after it are not looked at.
pub fn collect_trace_batch(results: &mut Vec<RawTraceResult>, outcomes: Vec<TraceOutcome>) -> (r: Result<(), String>)
    ensures
        ({
            let k = first_fatal(outcomes@);
            &&& final(results)@ == old(results)@ + traced_results(outcomes@.take(k))
            &&& if k < outcomes@.len() {
                r == Err::<(), String>(outcomes@[k]->Failed_message)
            } else {
                r == Ok::<(), String>(())
            }
        }),
        r is Ok <==> forall|j: int| 0 <= j < outcomes@.len() ==> !fails_other_than_oversized(#[trigger] outcomes@[j]),
        r matches Err(m) ==> exists|j: int|
            0 <= j < outcomes@.len() && fails_other_than_oversized(#[trigger] outcomes@[j]) && outcomes@[j]->Failed_message == m
                && forall|i: int| 0 <= i < j ==> !fails_other_than_oversized(#[trigger] outcomes@[i]),
{
    proof {
        lemma_first_fatal_is_first_other_failure(outcomes@);
    }
    let ghost os = outcomes@;
    let ghost start = results@;
    for o in it: outcomes.into_iter()
        invariant
            it.seq() == os,
            os == outcomes@,
            start == old(results)@,
            forall|k: int| 0 <= k < it.index() ==> !is_fatal(#[trigger] os[k]),
            results@ == start + traced_results(os.take(it.index() as int)),
    {
        let ghost k = it.index() as int;
        let ghost og = o;
        proof {
            assert(og == os[k]);
            let t = os.take(k + 1);
            assert(t.drop_last() =~= os.take(k));
            assert(t.last() == og);
        }
        match o {
            TraceOutcome::Traced { tx_hash, trace } => {
                results.push(RawTraceResult::Success { result: trace, tx_hash: Some(tx_hash) });
            },
            TraceOutcome::Failed { tx_hash, message } => {
                proof {
                    reveal_strlit("-32008");
                }
                if !str_contains(message.as_str(), "-32008") {
                    proof {
                        assert(is_fatal(os[k]));
                        lemma_first_fatal(os, k);
                        assert(results@ == start + traced_results(os.take(k)));
                        assert(message == os[k]->Failed_message);
                        lemma_first_fatal_is_first_other_failure(os);
                    }
                    return Err(message);
                }
            },
        }
    }
    proof {
        lemma_first_fatal(os, os.len() as int);
        assert(os.take(os.len() as int) =~= os);
        lemma_first_fatal_is_first_other_failure(os);
    }
    Ok(())
}

/// Logs whose responses carry their transaction hash and log index keep them when parsed,
/// so that turning them into rows cannot fail.
pub proof fn lemma_parsed_logs_keyed(raw: Seq<RawLog>, parsed: Seq<RpcLogReceiptData>, schema: Schema)
    requires
        parsed.len() == raw.len(),
        forall|i: int| 0 <= i < raw.len() ==> log_data_from(#[trigger] parsed[i], raw[i], schema),
        forall|i: int| 0 <= i < raw.len() ==> (#[trigger] raw[i]).transaction_hash is Some && raw[i].log_index is Some,
    ensures
        logs_keyed(parsed),
{
    assert forall|i: int| 0 <= i < parsed.len() implies (#[trigger] log_key_error(log_common(parsed[i]))) is None by {
        assert(log_data_from(parsed[i], raw[i], schema));
        assert(raw[i].transaction_hash is Some);
    }
}

/// Every trace result the indexer collects names its transaction.
pub proof fn lemma_collected_results_hashed(outcomes: Seq<TraceOutcome>)
    ensures
        forall|i: int| 0 <= i < results_nodes(traced_results(outcomes)).len() ==> (#[trigger] results_nodes(
            traced_results(outcomes),
        )[i]).2 is Some,
    decreases outcomes.len(),
{
    if outcomes.len() > 0 {
        lemma_collected_results_hashed(outcomes.drop_last());
        let before = traced_results(outcomes.drop_last());
        match outcomes.last() {
            TraceOutcome::Traced { tx_hash, trace } => {
                let r = RawTraceResult::Success { result: trace, tx_hash: Some(tx_hash) };
                assert(traced_results(outcomes) == before.push(r));
                assert(before.push(r).drop_last() =~= before);
                let all = results_nodes(before.push(r));
                assert(all == results_nodes(before) + result_nodes(r));
                assert forall|i: int| 0 <= i < all.len() implies (#[trigger] all[i]).2 is Some by {
                    if i >= results_nodes(before).len() {
                        let k = i - results_nodes(before).len();
                        assert(all[i] == result_nodes(r)[k]);
                    }
                }
            },
            TraceOutcome::Failed { .. } => {},
        }
    }
}

/// Trace rows made from nodes that name their transaction carry its hash, so that turning
/// them into stored rows cannot fail.
pub proof fn lemma_traces_from_hashed_nodes(out: Seq<RpcTraceData>, nodes: Seq<TracedNode>, schema: Schema, block_number: u64)
    requires
        traces_from_traced_nodes(out, nodes, schema, block_number),
        forall|i: int| 0 <= i < nodes.len() ==> (#[trigger] nodes[i]).2 is Some,
    ensures
        traces_hashed(out),
{
    assert forall|i: int| 0 <= i < out.len() implies (#[trigger] trace_common(out[i])).tx_hash is Some by {
        assert(trace_from_frame(out[i], nodes[i].0, nodes[i].1, nodes[i].2, schema, block_number));
        assert(nodes[i].2 is Some);
    }
}

} // verus!
