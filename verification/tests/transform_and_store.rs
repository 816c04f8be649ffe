use blockchain_indexer::indexer::transformations::blocks::transform_blocks;
use blockchain_indexer::indexer::transformations::logs::{make_log_id, transform_logs};
use blockchain_indexer::indexer::transformations::traces::{block_map, find_block, find_tx_index, make_trace_id, transform_traces, BlockInfo, TxIndexEntry};
use blockchain_indexer::indexer::transformations::transactions::transform_transactions;
use blockchain_indexer::indexer::{
    collect_trace_batch, contains_table, fetch_plan, trace_batches, transaction_hashes, transform_data, FetchPlan, ParsedData, TraceOutcome,
};
use blockchain_indexer::models::common::{ChainInfo, Schema, TransactionTo, TxKind};
use blockchain_indexer::models::datasets::blocks::{CommonRpcHeaderData, EthereumRpcHeaderData, RpcHeaderData, TransformedBlockData};
use blockchain_indexer::models::datasets::logs::{CommonRpcLogReceiptData, EthereumRpcLogReceiptData, RpcLogReceiptData, TransformedLogData};
use blockchain_indexer::models::datasets::traces::{CommonRpcTraceData, EthereumRpcTraceData, RpcTraceData, TransformedTraceData};
use blockchain_indexer::models::datasets::transactions::{
    CommonRpcTransactionData, CommonRpcTransactionReceiptData, EthereumRpcTransactionData, EthereumRpcTransactionReceiptData,
    RpcTransactionData, RpcTransactionReceiptData, TransformedTransactionData,
};
use blockchain_indexer::models::errors::{IndexerError, KeyField};
use blockchain_indexer::models::rpc::{RawBlock, RawBlockTransactions, RawGasPriceTx, RawHeader, RawTrace, RawTraceResult, RawTransaction, RawTxEnvelope};
use blockchain_indexer::models::types::{BlockDate, BlockTime};
use blockchain_indexer::storage::bigquery::{generate_insert_id, last_processed_block, plan_insert_batches, RowKey};
use blockchain_indexer::storage::{WorkerBatch, WorkerProgress, all_channels_empty};
use blockchain_indexer::utils::Table;

fn info(schema: Schema) -> ChainInfo {
    ChainInfo::new(324, "era".to_string(), schema)
}

fn header_data(number: u64, secs: i64) -> RpcHeaderData {
    RpcHeaderData::Ethereum(EthereumRpcHeaderData {
        common: CommonRpcHeaderData {
            block_time: BlockTime { secs },
            block_date: BlockDate { days: secs / 86_400 },
            block_number: number,
            block_hash: [number as u8; 32],
            parent_hash: [0; 32],
            nonce: None,
            gas_limit: 1,
            gas_used: 1,
            base_fee_per_gas: None,
            blob_gas_used: None,
            excess_blob_gas: None,
            extra_data: vec![],
            difficulty: "0".to_string(),
            total_difficulty: None,
            size: None,
            miner: [0; 20],
            mix_hash: None,
            requests_hash: None,
            logs_bloom: [0; 256],
            sha3_uncles: [0; 32],
            parent_beacon_block_root: None,
            receipts_root: [0; 32],
            state_root: [0; 32],
            transactions_root: [0; 32],
            withdrawals_root: None,
        },
    })
}

fn log_data(tx_hash: Option<[u8; 32]>, log_index: Option<u64>) -> RpcLogReceiptData {
    RpcLogReceiptData::Ethereum(EthereumRpcLogReceiptData {
        common: CommonRpcLogReceiptData {
            block_time: None,
            block_date: None,
            block_number: Some(5),
            block_hash: None,
            tx_hash,
            tx_index: Some(0),
            log_index,
            address: [0; 20],
            topics: vec![],
            data: vec![],
        },
    })
}

fn trace_data(tx_hash: Option<[u8; 32]>, address: Vec<usize>, block_number: u64) -> RpcTraceData {
    RpcTraceData::Ethereum(EthereumRpcTraceData {
        common: CommonRpcTraceData {
            block_number,
            tx_hash,
            trace_type: "call".to_string(),
            subtraces: 0,
            trace_address: address,
            from_address: [0; 20],
            to_address: None,
            value: None,
            gas: "0".to_string(),
            gas_used: "0".to_string(),
            input: vec![],
            output: None,
            error: None,
        },
    })
}

fn tx_data(hash: u8, index: Option<u64>, tx_type: u8) -> RpcTransactionData {
    RpcTransactionData::Ethereum(EthereumRpcTransactionData {
        common: CommonRpcTransactionData {
            block_number: Some(5),
            block_hash: None,
            tx_hash: [hash; 32],
            tx_index: index,
            tx_type,
            nonce: 3,
            from_address: [1; 20],
            to_address: TransactionTo::TxKind(TxKind::Create),
            input: Some(vec![1]),
            value: Some("10".to_string()),
            gas_price: Some(2),
            gas_limit: 21_000,
            max_fee_per_gas: None,
            max_priority_fee_per_gas: None,
            effective_gas_price: None,
            blob_versioned_hashes: vec![],
        },
        max_fee_per_blob_gas: None,
        blobs: vec![],
        commitments: vec![],
        proofs: vec![],
    })
}

fn receipt_data(hash: u8, tx_type: u8) -> RpcTransactionReceiptData {
    RpcTransactionReceiptData::Ethereum(EthereumRpcTransactionReceiptData {
        common: CommonRpcTransactionReceiptData {
            block_number: Some(5),
            block_hash: Some([5; 32]),
            tx_hash: [hash; 32],
            tx_index: Some(7),
            tx_type,
            status: Some(false),
            from_address: [2; 20],
            to_address: None,
            contract_address: None,
            gas_used: 11,
            effective_gas_price: 12,
            cumulative_gas_used: 13,
        },
    })
}

#[test]
fn log_and_trace_ids() {
    let h = [0xab; 32];
    let hex: String = std::iter::repeat("ab").take(32).collect();
    assert_eq!(make_log_id(324, &h, 7), format!("log_324_0x{}_7", hex));
    assert_eq!(make_trace_id(1, &h, "call", &vec![]), format!("trace_1_0x{}_call", hex));
    assert_eq!(make_trace_id(1, &h, "call", &vec![0, 12, 3]), format!("trace_1_0x{}_call_0_12_3", hex));
}

#[test]
fn transform_logs_requires_keys() {
    let rows = transform_logs(vec![log_data(Some([1; 32]), Some(4))], Schema::ZKsync, 324).unwrap();
    match &rows[0] {
        TransformedLogData::ZKsync(z) => assert!(z.common.id.starts_with("log_324_0x0101")),
        _ => panic!("expected a ZKsync row"),
    }
    let r = transform_logs(vec![log_data(Some([1; 32]), Some(4)), log_data(Some([1; 32]), None), log_data(None, None)], Schema::Ethereum, 1);
    assert!(matches!(r, Err(IndexerError::MissingKeyField { field: KeyField::LogIndex })));
    let r = transform_logs(vec![log_data(None, Some(1))], Schema::Ethereum, 1);
    assert!(matches!(r, Err(IndexerError::MissingKeyField { field: KeyField::TxHash })));
}

#[test]
fn block_lookup_last_entry_wins() {
    let headers = vec![header_data(5, 100), header_data(6, 200), header_data(5, 300)];
    let m = block_map(&headers);
    assert_eq!(m.len(), 3);
    assert_eq!(find_block(&m, 5).unwrap().time, BlockTime { secs: 300 });
    assert_eq!(find_block(&m, 6).unwrap().time, BlockTime { secs: 200 });
    assert!(find_block(&m, 7).is_none());
    let entries = vec![TxIndexEntry { hash: [1; 32], index: Some(1) }, TxIndexEntry { hash: [1; 32], index: Some(4) }];
    assert_eq!(find_tx_index(&entries, &[1; 32]), Some(4));
    assert_eq!(find_tx_index(&entries, &[2; 32]), None);
}

#[test]
fn transform_traces_joins_block_and_index() {
    let blocks = vec![BlockInfo { number: 5, time: BlockTime { secs: 500 }, date: BlockDate { days: 0 }, hash: [5; 32] }];
    let txs = vec![TxIndexEntry { hash: [1; 32], index: Some(9) }];
    let rows = transform_traces(
        vec![trace_data(Some([1; 32]), vec![0, 1], 5), trace_data(Some([2; 32]), vec![], 6)],
        &info(Schema::Ethereum),
        &blocks,
        &txs,
    )
    .unwrap();
    match (&rows[0], &rows[1]) {
        (TransformedTraceData::Ethereum(a), TransformedTraceData::Ethereum(b)) => {
            assert!(a.common.id.ends_with("_call_0_1"));
            assert_eq!(a.common.block_time, BlockTime { secs: 500 });
            assert_eq!(a.common.block_hash, [5; 32]);
            assert_eq!(a.common.tx_index, Some(9));
            assert_eq!(b.common.block_time, BlockTime { secs: 0 });
            assert_eq!(b.common.block_hash, [0; 32]);
            assert_eq!(b.common.tx_index, None);
            assert!(b.common.id.ends_with("_call"));
        }
        _ => panic!("expected Ethereum rows"),
    }
    let r = transform_traces(vec![trace_data(None, vec![], 5)], &info(Schema::Ethereum), &blocks, &txs);
    assert!(matches!(r, Err(IndexerError::MissingKeyField { field: KeyField::TxHash })));
}

#[test]
fn transform_transactions_zips_with_receipts() {
    let blocks = vec![BlockInfo { number: 5, time: BlockTime { secs: 42 }, date: BlockDate { days: 0 }, hash: [5; 32] }];
    let rows = transform_transactions(
        vec![tx_data(1, None, 2), tx_data(2, None, 2), tx_data(3, None, 2)],
        vec![receipt_data(1, 0), receipt_data(2, 4)],
        &info(Schema::Ethereum),
        &blocks,
    )
    .unwrap();
    assert_eq!(rows.len(), 2);
    match (&rows[0], &rows[1]) {
        (TransformedTransactionData::Ethereum(a), TransformedTransactionData::Ethereum(b)) => {
            assert_eq!(a.common.tx_type, 2);
            assert_eq!(b.common.tx_type, 4);
            assert_eq!(a.common.block_time, BlockTime { secs: 42 });
            assert_eq!(a.common.tx_index, Some(7));
            assert_eq!(a.common.from_address, [2; 20]);
            assert_eq!(a.common.nonce, 3);
            assert_eq!(a.common.gas_used, 11);
            assert_eq!(a.common.chain_id, 324);
        }
        _ => panic!("expected Ethereum rows"),
    }
}

#[test]
fn transform_blocks_keeps_headers() {
    let rows = transform_blocks(vec![header_data(5, 100)], Schema::Ethereum, 1).unwrap();
    match &rows[0] {
        TransformedBlockData::Ethereum(e) => {
            assert_eq!(e.common.chain_id, 1);
            assert_eq!(e.common.block_number, 5);
        }
        _ => panic!("expected an Ethereum row"),
    }
}

#[test]
fn transform_data_only_fills_active_tables() {
    let parsed = ParsedData {
        header: vec![header_data(5, 100)],
        transactions: vec![tx_data(1, Some(0), 0)],
        transaction_receipts: vec![receipt_data(1, 0)],
        logs: vec![log_data(None, None)],
        traces: vec![trace_data(Some([1; 32]), vec![], 5)],
    };
    let active = [Table::Blocks, Table::Traces];
    let out = transform_data(&info(Schema::Ethereum), parsed.clone(), &active).unwrap();
    assert_eq!(out.blocks.len(), 1);
    assert_eq!(out.transactions.len(), 0);
    assert_eq!(out.logs.len(), 0);
    assert_eq!(out.traces.len(), 1);
    match &out.traces[0] {
        TransformedTraceData::Ethereum(t) => {
            assert_eq!(t.common.tx_index, Some(0));
            assert_eq!(t.common.block_time, BlockTime { secs: 100 });
        }
        _ => panic!("expected an Ethereum trace"),
    }
    let r = transform_data(&info(Schema::Ethereum), parsed, &[Table::Logs, Table::Traces]);
    assert!(matches!(r, Err(IndexerError::MissingKeyField { field: KeyField::TxHash })));
    assert!(contains_table(&active, Table::Traces));
    assert!(!contains_table(&active, Table::Logs));
}

#[test]
fn fetch_plan_follows_datasets() {
    assert_eq!(fetch_plan(&[Table::Transactions]), FetchPlan { need_block: true, need_receipts: true, need_traces: false });
    assert_eq!(fetch_plan(&[Table::Logs]), FetchPlan { need_block: false, need_receipts: true, need_traces: false });
    assert_eq!(fetch_plan(&[Table::Traces, Table::Blocks]), FetchPlan { need_block: true, need_receipts: false, need_traces: true });
    assert_eq!(fetch_plan(&[Table::Traces]), FetchPlan { need_block: true, need_receipts: false, need_traces: true });
    assert_eq!(fetch_plan(&[Table::Blocks]), FetchPlan { need_block: true, need_receipts: false, need_traces: false });
}

#[test]
fn hashes_and_trace_batches() {
    let raw = RawHeader {
        hash: [0; 32], parent_hash: [0; 32], ommers_hash: [0; 32], beneficiary: [0; 20], state_root: [0; 32],
        transactions_root: [0; 32], receipts_root: [0; 32], logs_bloom: [0; 256], difficulty: [0; 4], number: 1,
        gas_limit: 0, gas_used: 0, timestamp: 0, extra_data: vec![], mix_hash: None, nonce: None, base_fee_per_gas: None,
        withdrawals_root: None, blob_gas_used: None, excess_blob_gas: None, parent_beacon_block_root: None,
        requests_hash: None, target_blobs_per_block: None, total_difficulty: None, size: None,
    };
    let tx = |h: u8| RawTransaction {
        envelope: RawTxEnvelope::Legacy(RawGasPriceTx { hash: [h; 32], nonce: 0, to: TxKind::Create, input: vec![], value: [0; 4], gas_price: 0, gas_limit: 0 }),
        block_hash: None, block_number: None, transaction_index: None, effective_gas_price: None, from: None,
        max_fee_per_gas: None, max_priority_fee_per_gas: None, l1_batch_number: None, l1_batch_tx_index: None,
    };
    let b = RawBlock { header: raw, transactions: RawBlockTransactions::Full((0..23).map(tx).collect()), l1_batch_number: None, l1_batch_timestamp: None };
    let hashes = transaction_hashes(&b);
    assert_eq!(hashes.len(), 23);
    assert_eq!(hashes[22], [22; 32]);
    let batches = trace_batches(&hashes);
    assert_eq!(batches.iter().map(|b| b.len()).collect::<Vec<_>>(), vec![10, 10, 3]);
    assert_eq!(batches.concat(), hashes);
}

#[test]
fn oversized_traces_are_skipped() {
    let mut results = Vec::new();
    let r = collect_trace_batch(
        &mut results,
        vec![
            TraceOutcome::Traced { tx_hash: [1; 32], trace: RawTrace::JsNull },
            TraceOutcome::Failed { tx_hash: [2; 32], message: "server error -32008: response too big".to_string() },
            TraceOutcome::Traced { tx_hash: [3; 32], trace: RawTrace::Unsupported },
        ],
    );
    assert!(r.is_ok());
    assert_eq!(results.len(), 2);
    assert!(matches!(results[1], RawTraceResult::Success { tx_hash: Some(h), .. } if h == [3; 32]));
    let r = collect_trace_batch(
        &mut results,
        vec![
            TraceOutcome::Failed { tx_hash: [4; 32], message: "timeout".to_string() },
            TraceOutcome::Traced { tx_hash: [5; 32], trace: RawTrace::JsNull },
        ],
    );
    assert_eq!(r, Err("timeout".to_string()));
    assert_eq!(results.len(), 2);
}

#[test]
fn worker_flushes_after_ten_blocks_or_five_seconds() {
    let mut w: WorkerBatch<u32> = WorkerBatch::new();
    for b in 0..9u64 {
        assert!(w.receive(vec![b as u32], 100 - b, 0).is_none());
    }
    assert!(w.receive(vec![], 95, 0).is_none());
    let f = w.receive(vec![99], 200, 0).expect("ten blocks");
    assert_eq!(f.rows, vec![0, 1, 2, 3, 4, 5, 6, 7, 8, 99]);
    assert_eq!((f.min_block, f.max_block), (92, 200));
    assert!(w.rows.is_empty());
    assert!(w.receive(vec![], 7, 6_000_000_000).is_none());
    let f = w.receive(vec![1, 2], 3, 5_000_000_000).expect("waited");
    assert_eq!((f.rows, f.min_block, f.max_block), (vec![1, 2], 3, 7));
    assert!(w.receive(vec![4], 8, 0).is_none());
    let f = w.drain().expect("left over");
    assert_eq!((f.rows, f.min_block, f.max_block), (vec![4], 8, 8));
    assert!(w.drain().is_none());
}

#[test]
fn progress_and_channels() {
    let mut p = WorkerProgress::new();
    p.update_blocks_progress(10);
    p.update_transactions_progress(10);
    p.update_logs_progress(12);
    assert!(!p.all_workers_completed(10));
    p.update_traces_progress(10);
    assert!(p.all_workers_completed(10));
    assert!(!p.all_workers_completed(11));
    assert!(all_channels_empty([1024; 4]));
    assert!(!all_channels_empty([1024, 1024, 1023, 1024]));
}

fn key(block_number: Option<u64>, tx_hash: Option<[u8; 32]>, tx_index: Option<u64>, log_index: Option<u64>, trace_address: Option<Vec<usize>>) -> RowKey {
    RowKey { block_number, tx_hash, tx_index, log_index, trace_address }
}

#[test]
fn insert_ids_by_table() {
    let h = [0x0f; 32];
    let hex: String = std::iter::repeat("0f").take(32).collect();
    assert_eq!(generate_insert_id("blocks", &key(Some(12), None, None, None, None), 1).unwrap(), "block-12");
    assert_eq!(generate_insert_id("transactions", &key(None, Some(h), None, None, None), 7).unwrap(), format!("tx-7-0x{}", hex));
    assert_eq!(generate_insert_id("logs", &key(Some(3), Some(h), Some(1), Some(2), None), 7).unwrap(), format!("log-3-0x{}-1-2", hex));
    assert_eq!(generate_insert_id("traces", &key(Some(3), Some(h), None, None, Some(vec![0, 10])), 7).unwrap(), format!("trace-3-0x{}-0-10", hex));
    assert_eq!(generate_insert_id("traces", &key(Some(3), Some(h), None, None, Some(vec![])), 7).unwrap(), format!("trace-3-0x{}-", hex));
    match generate_insert_id("logs", &key(None, Some(h), None, None, None), 9) {
        Err(IndexerError::MissingInsertIdFields { fields, block_number }) => {
            assert_eq!(fields, vec![KeyField::TxIndex, KeyField::LogIndex]);
            assert_eq!(block_number, 9);
        }
        other => panic!("unexpected {:?}", other),
    }
    match generate_insert_id("traces", &key(Some(4), None, None, None, None), 9) {
        Err(IndexerError::MissingInsertIdFields { fields, block_number }) => {
            assert_eq!(fields, vec![KeyField::TxHash, KeyField::TraceAddress]);
            assert_eq!(block_number, 4);
        }
        other => panic!("unexpected {:?}", other),
    }
    match generate_insert_id("receipts", &key(None, None, None, None, None), 9) {
        Err(IndexerError::UnknownTable { name, block_number }) => assert_eq!((name.as_str(), block_number), ("receipts", 9)),
        other => panic!("unexpected {:?}", other),
    }
}

#[test]
fn insert_batches_stay_under_the_limit() {
    let sizes = vec![4_000_000, 4_000_000, 2_000_000, 10_000_000, 100, 9_487_800, 1];
    let plan = plan_insert_batches(&sizes);
    assert_eq!(plan, vec![vec![0, 1], vec![2], vec![3], vec![4], vec![5], vec![6]]);
    assert_eq!(plan_insert_batches(&vec![]), Vec::<Vec<usize>>::new());
    assert_eq!(plan_insert_batches(&vec![10, 20, 30]), vec![vec![0, 1, 2]]);
}

#[test]
fn last_processed_is_the_smallest_stored_maximum() {
    assert_eq!(last_processed_block(&vec![]), 0);
    assert_eq!(last_processed_block(&vec![None, Some("abc".to_string())]), 0);
    assert_eq!(last_processed_block(&vec![Some("120".to_string()), None, Some("95".to_string()), Some("300".to_string())]), 95);
}

#[test]
fn different_rows_get_different_ids() {
    let a = [0x11; 32];
    let b = [0x12; 32];
    assert_ne!(make_log_id(1, &a, 1), make_log_id(1, &a, 11));
    assert_ne!(make_log_id(1, &a, 1), make_log_id(1, &b, 1));
    let id = |bn: u64, h: [u8; 32], txi: u64, li: u64| generate_insert_id("logs", &key(Some(bn), Some(h), Some(txi), Some(li), None), 0).unwrap();
    assert_ne!(id(1, a, 12, 3), id(1, a, 1, 23));
    assert_ne!(id(11, a, 2, 3), id(1, a, 12, 3));
    let tid = |addr: Vec<usize>| generate_insert_id("traces", &key(Some(1), Some(a), None, None, Some(addr)), 0).unwrap();
    assert_ne!(tid(vec![1, 23]), tid(vec![12, 3]));
    assert_ne!(tid(vec![]), tid(vec![0]));
}

#[test]
fn worker_keeps_every_row_once_in_order() {
    let mut w: WorkerBatch<u32> = WorkerBatch::new();
    let mut written = Vec::new();
    let mut next = 0u32;
    for block in 0..35u64 {
        let rows: Vec<u32> = (0..(block % 3) as u32).map(|_| { next += 1; next }).collect();
        if let Some(f) = w.receive(rows, block, if block % 7 == 6 { 5_000_000_000 } else { 0 }) {
            assert!(f.min_block <= f.max_block);
            written.extend(f.rows);
        }
    }
    if let Some(f) = w.drain() {
        written.extend(f.rows);
    }
    assert_eq!(written, (1..=next).collect::<Vec<_>>());
}
