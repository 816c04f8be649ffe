use blockchain_indexer::indexer::rpc::blocks::{parse_header, parse_transactions};
use blockchain_indexer::indexer::{parse_data, transform_data};
use blockchain_indexer::utils::Table;
use blockchain_indexer::indexer::rpc::receipts::{parse_log_receipts, parse_transaction_receipts};
use blockchain_indexer::indexer::rpc::traces::parse_traces;
use blockchain_indexer::models::common::{ChainInfo, Schema, TransactionTo, TxKind};
use blockchain_indexer::models::datasets::blocks::RpcHeaderData;
use blockchain_indexer::models::datasets::logs::RpcLogReceiptData;
use blockchain_indexer::models::datasets::traces::RpcTraceData;
use blockchain_indexer::models::datasets::transactions::{RpcTransactionData, RpcTransactionReceiptData};
use blockchain_indexer::models::errors::{BlockError, IndexerError, RequiredTxField};
use blockchain_indexer::models::rpc::{
    RawBlock, RawBlockTransactions, RawCallFrame, RawEip1559Tx, RawEip4844Tx, RawBlobSidecar, RawGasPriceTx, RawHeader, RawLog,
    RawReceipt, RawReceiptStatus, RawTrace, RawTraceResult, RawTransaction, RawTxEnvelope, RawUnknownTx,
};
use blockchain_indexer::models::types::{BlockDate, BlockTime};

fn header(number: u64, timestamp: u64) -> RawHeader {
    RawHeader {
        hash: [1u8; 32],
        parent_hash: [2u8; 32],
        ommers_hash: [3u8; 32],
        beneficiary: [4u8; 20],
        state_root: [5u8; 32],
        transactions_root: [6u8; 32],
        receipts_root: [7u8; 32],
        logs_bloom: [0u8; 256],
        difficulty: [0, 1, 0, 0],
        number,
        gas_limit: 30_000_000,
        gas_used: 21_000,
        timestamp,
        extra_data: vec![0xab],
        mix_hash: None,
        nonce: Some([0u8; 8]),
        base_fee_per_gas: Some(7),
        withdrawals_root: None,
        blob_gas_used: None,
        excess_blob_gas: None,
        parent_beacon_block_root: None,
        requests_hash: None,
        target_blobs_per_block: Some(6),
        total_difficulty: Some([15_570_585_907_140_471_125, 3_184, 0, 0]),
        size: None,
    }
}

fn block(h: RawHeader, txs: Vec<RawTransaction>) -> RawBlock {
    RawBlock { header: h, transactions: RawBlockTransactions::Full(txs), l1_batch_number: None, l1_batch_timestamp: None }
}

fn legacy(hash: u8) -> RawTransaction {
    RawTransaction {
        envelope: RawTxEnvelope::Legacy(RawGasPriceTx {
            hash: [hash; 32],
            nonce: 9,
            to: TxKind::Call([8u8; 20]),
            input: vec![1, 2, 3],
            value: [1_000, 0, 0, 0],
            gas_price: 50,
            gas_limit: 21_000,
        }),
        block_hash: Some([1u8; 32]),
        block_number: Some(100),
        transaction_index: Some(0),
        effective_gas_price: Some(50),
        from: None,
        max_fee_per_gas: Some("0x64".to_string()),
        max_priority_fee_per_gas: None,
        l1_batch_number: Some("0x10".to_string()),
        l1_batch_tx_index: Some("0x2".to_string()),
    }
}

fn unknown(nonce: Option<&str>, gas: Option<&str>, to: Option<Option<TxKind>>) -> RawTransaction {
    RawTransaction {
        envelope: RawTxEnvelope::Unknown(RawUnknownTx {
            hash: [0x71; 32],
            ty: 0x71,
            nonce: nonce.map(|s| s.to_string()),
            gas: gas.map(|s| s.to_string()),
            to,
            input: Some(vec![9]),
            value: Some([5, 0, 0, 0]),
            gas_price: Some("0x3".to_string()),
            max_fee_per_gas: Some("0x4".to_string()),
            max_priority_fee_per_gas: None,
            l1_batch_number: Some("0xa".to_string()),
            l1_batch_tx_index: None,
            blob_versioned_hashes: None,
        }),
        block_hash: None,
        block_number: Some(100),
        transaction_index: Some(1),
        effective_gas_price: None,
        from: Some([0x55; 20]),
        max_fee_per_gas: None,
        max_priority_fee_per_gas: None,
        l1_batch_number: None,
        l1_batch_tx_index: None,
    }
}

#[test]
fn header_fields_and_decimal_difficulty() {
    let b = block(header(100, 1_700_000_000), vec![]);
    let parsed = parse_header(&b, Schema::Ethereum).unwrap();
    assert_eq!(parsed.len(), 1);
    match &parsed[0] {
        RpcHeaderData::Ethereum(e) => {
            let c = &e.common;
            assert_eq!(c.block_number, 100);
            assert_eq!(c.block_time, BlockTime { secs: 1_700_000_000 });
            assert_eq!(c.block_date, BlockDate { days: 19_675 });
            assert_eq!(c.difficulty, "18446744073709551616");
            assert_eq!(c.total_difficulty.as_deref(), Some("58750003716598352816469"));
            assert_eq!(c.size, None);
            assert_eq!(c.miner, [4u8; 20]);
            assert_eq!(c.sha3_uncles, [3u8; 32]);
        }
        _ => panic!("expected an Ethereum header"),
    }
}

#[test]
fn header_with_bad_timestamp_fails() {
    let b = block(header(5, u64::MAX / 2), vec![]);
    match parse_header(&b, Schema::Ethereum) {
        Err(IndexerError::InvalidTimestamp { timestamp }) => assert_eq!(timestamp, u64::MAX / 2),
        other => panic!("unexpected {:?}", other),
    }
}

#[test]
fn zksync_header_reads_batch_fields() {
    let mut b = block(header(0, 60), vec![]);
    b.l1_batch_number = Some("0x1f".to_string());
    b.l1_batch_timestamp = Some("0x65".to_string());
    match &parse_header(&b, Schema::ZKsync).unwrap()[0] {
        RpcHeaderData::ZKsync(z) => {
            assert_eq!(z.l1_batch_number, Some(31));
            assert_eq!(z.l1_batch_timestamp, Some(BlockTime { secs: 101 }));
            assert_eq!(z.target_blobs_per_block, Some(6));
            assert_eq!(z.common.block_time, BlockTime { secs: 1_577_836_860 });
        }
        _ => panic!("expected a ZKsync header"),
    }
    b.l1_batch_number = Some("zz".to_string());
    assert!(matches!(parse_header(&b, Schema::ZKsync), Err(IndexerError::InvalidHex)));
    assert!(parse_header(&b, Schema::Ethereum).is_ok());
}

#[test]
fn block_without_full_transactions_fails() {
    let mut b = block(header(1, 1), vec![]);
    b.transactions = RawBlockTransactions::Hashes(vec![[0u8; 32]]);
    assert!(matches!(parse_transactions(b, Schema::Ethereum), Err(IndexerError::Block(BlockError::TransactionHashesOnly))));
    let mut b = block(header(1, 1), vec![]);
    b.transactions = RawBlockTransactions::Uncle;
    assert!(matches!(parse_transactions(b, Schema::Ethereum), Err(IndexerError::Block(BlockError::UncleBlocksNotSupported))));
}

#[test]
fn legacy_transaction_on_each_chain() {
    let parsed = parse_transactions(block(header(100, 1), vec![legacy(0xaa)]), Schema::Ethereum).unwrap();
    match &parsed[0] {
        RpcTransactionData::Ethereum(e) => {
            assert_eq!(e.common.tx_type, 0);
            assert_eq!(e.common.tx_hash, [0xaa; 32]);
            assert_eq!(e.common.value.as_deref(), Some("1000"));
            assert_eq!(e.common.gas_price, Some(50));
            assert_eq!(e.common.max_fee_per_gas, None);
            assert_eq!(e.common.from_address, [0u8; 20]);
            assert!(matches!(e.common.to_address, TransactionTo::TxKind(TxKind::Call(a)) if a == [8u8; 20]));
            assert_eq!(e.blobs.len(), 0);
        }
        _ => panic!("expected an Ethereum transaction"),
    }
    let parsed = parse_transactions(block(header(100, 1), vec![legacy(0xaa)]), Schema::ZKsync).unwrap();
    match &parsed[0] {
        RpcTransactionData::ZKsync(z) => {
            assert_eq!(z.common.max_fee_per_gas, Some(100));
            assert_eq!(z.common.max_priority_fee_per_gas, None);
            assert_eq!(z.l1_batch_number, Some(16));
            assert_eq!(z.l1_batch_tx_index, Some(2));
        }
        _ => panic!("expected a ZKsync transaction"),
    }
}

#[test]
fn blob_transaction_keeps_sidecar() {
    let tx = RawTransaction {
        envelope: RawTxEnvelope::Eip4844(RawEip4844Tx {
            hash: [3; 32],
            nonce: 1,
            to: [7; 20],
            input: vec![],
            value: [0, 0, 0, 0],
            gas_limit: 100,
            max_fee_per_gas: 10,
            max_priority_fee_per_gas: 2,
            blob_versioned_hashes: vec![[1; 32], [2; 32]],
            max_fee_per_blob_gas: 9,
            sidecar: Some(RawBlobSidecar { blobs: vec![vec![0; 4]], commitments: vec![[5; 48]], proofs: vec![[6; 48]] }),
        }),
        ..legacy(0)
    };
    match &parse_transactions(block(header(1, 1), vec![tx]), Schema::Ethereum).unwrap()[0] {
        RpcTransactionData::Ethereum(e) => {
            assert_eq!(e.common.tx_type, 3);
            assert_eq!(e.common.blob_versioned_hashes.len(), 2);
            assert_eq!(e.max_fee_per_blob_gas, Some(9));
            assert_eq!(e.blobs.len(), 1);
            assert_eq!(e.commitments, vec![[5; 48]]);
            assert_eq!(e.common.value.as_deref(), Some("0"));
        }
        _ => panic!("expected an Ethereum transaction"),
    }
}

#[test]
fn unknown_transaction_fields() {
    let ok = unknown(Some("0x5"), Some("0x5208"), Some(Some(TxKind::Create)));
    match &parse_transactions(block(header(1, 1), vec![ok]), Schema::ZKsync).unwrap()[0] {
        RpcTransactionData::ZKsync(z) => {
            assert_eq!(z.common.tx_type, 0x71);
            assert_eq!(z.common.nonce, 5);
            assert_eq!(z.common.gas_limit, 21_000);
            assert_eq!(z.common.gas_price, Some(3));
            assert_eq!(z.common.max_fee_per_gas, Some(4));
            assert_eq!(z.common.value.as_deref(), Some("5"));
            assert_eq!(z.common.from_address, [0x55; 20]);
            assert_eq!(z.l1_batch_number, Some(10));
            assert_eq!(z.l1_batch_tx_index, None);
        }
        _ => panic!("expected a ZKsync transaction"),
    }
}

#[test]
fn unknown_transaction_errors_in_order() {
    let cases: Vec<(RawTransaction, fn(&IndexerError) -> bool)> = vec![
        (unknown(None, None, None), |e| matches!(e, IndexerError::MissingTransactionField { field: RequiredTxField::Nonce })),
        (unknown(Some("x"), None, None), |e| matches!(e, IndexerError::InvalidHex)),
        (unknown(Some("0x1"), None, None), |e| matches!(e, IndexerError::MissingTransactionField { field: RequiredTxField::Gas })),
        (unknown(Some("0x1"), Some("0x1"), None), |e| matches!(e, IndexerError::MissingRecipient)),
        (unknown(Some("0x1"), Some("0x1"), Some(None)), |e| matches!(e, IndexerError::InvalidRecipient)),
    ];
    for (tx, check) in cases {
        let r = parse_transactions(block(header(1, 1), vec![legacy(1), tx]), Schema::ZKsync);
        let e = r.err().expect("expected an error");
        assert!(check(&e), "{:?}", e);
    }
}

fn receipt(logs: Vec<RawLog>) -> RawReceipt {
    RawReceipt {
        transaction_hash: [0xcc; 32],
        transaction_index: Some(3),
        block_hash: Some([1; 32]),
        block_number: Some(100),
        tx_type: 2,
        status: RawReceiptStatus::Eip658(true),
        from: [9; 20],
        to: None,
        contract_address: Some([8; 20]),
        gas_used: 21_000,
        effective_gas_price: 7,
        cumulative_gas_used: 42_000,
        logs,
        l1_batch_number: Some("0x20".to_string()),
        l1_batch_tx_index: None,
    }
}

fn log(index: u64, block_number: Option<u64>, timestamp: Option<u64>) -> RawLog {
    RawLog {
        address: [0xaa; 20],
        topics: vec![[1; 32]],
        data: vec![1, 2],
        block_hash: Some([1; 32]),
        block_number,
        block_timestamp: timestamp,
        transaction_hash: Some([0xcc; 32]),
        transaction_index: Some(3),
        log_index: Some(index),
        removed: false,
    }
}

#[test]
fn receipts_keep_status_and_batch_fields() {
    let mut post_state = receipt(vec![]);
    post_state.status = RawReceiptStatus::PostState([0; 32]);
    let rs = vec![receipt(vec![]), post_state];
    let parsed = parse_transaction_receipts(&rs, Schema::ZKsync).unwrap();
    assert_eq!(parsed.len(), 2);
    match (&parsed[0], &parsed[1]) {
        (RpcTransactionReceiptData::ZKsync(a), RpcTransactionReceiptData::ZKsync(b)) => {
            assert_eq!(a.common.status, Some(true));
            assert_eq!(b.common.status, None);
            assert_eq!(a.l1_batch_number, Some(32));
            assert_eq!(a.common.cumulative_gas_used, 42_000);
        }
        _ => panic!("expected ZKsync receipts"),
    }
}

#[test]
fn logs_are_flattened_in_order_with_times() {
    let rs = vec![
        receipt(vec![log(0, Some(0), Some(10)), log(1, None, Some(10))]),
        receipt(vec![]),
        receipt(vec![log(2, Some(5), None)]),
    ];
    let logs = parse_log_receipts(rs, Schema::Ethereum).unwrap();
    assert_eq!(logs.len(), 3);
    let common: Vec<_> = logs
        .iter()
        .map(|l| match l {
            RpcLogReceiptData::Ethereum(e) => e.common.clone(),
            _ => panic!("expected Ethereum logs"),
        })
        .collect();
    assert_eq!(common[0].log_index, Some(0));
    assert_eq!(common[0].block_time, Some(BlockTime { secs: 1_577_836_810 }));
    assert_eq!(common[0].block_date, Some(BlockDate { days: 18_262 }));
    assert_eq!(common[1].block_time, Some(BlockTime { secs: 10 }));
    assert_eq!(common[2].block_time, None);
    assert_eq!(common[2].block_date, None);
}

fn frame(typ: &str, calls: Vec<RawCallFrame>) -> RawCallFrame {
    RawCallFrame {
        typ: typ.to_string(),
        from: [1; 20],
        to: Some([2; 20]),
        value: Some([7, 0, 0, 0]),
        gas: [100, 0, 0, 0],
        gas_used: [40, 0, 0, 0],
        input: vec![],
        output: None,
        error: None,
        revert_reason: None,
        calls,
    }
}

#[test]
fn call_trees_flatten_depth_first() {
    let tree = frame("CALL", vec![frame("DELEGATECALL", vec![frame("STATICCALL", vec![])]), frame("CREATE", vec![])]);
    let results = vec![
        RawTraceResult::Error { error: "boom".to_string(), tx_hash: Some([9; 32]) },
        RawTraceResult::Success { result: RawTrace::CallTracer(tree), tx_hash: Some([4; 32]) },
    ];
    let traces = parse_traces(results, Schema::Ethereum, 77).unwrap();
    let seen: Vec<(String, Vec<usize>, usize)> = traces
        .iter()
        .map(|t| match t {
            RpcTraceData::Ethereum(e) => (e.common.trace_type.clone(), e.common.trace_address.clone(), e.common.subtraces),
            _ => panic!("expected Ethereum traces"),
        })
        .collect();
    assert_eq!(
        seen,
        vec![
            ("call".to_string(), vec![], 2),
            ("delegatecall".to_string(), vec![0], 1),
            ("staticcall".to_string(), vec![0, 0], 0),
            ("create".to_string(), vec![1], 0),
        ]
    );
    match &traces[0] {
        RpcTraceData::Ethereum(e) => {
            assert_eq!(e.common.block_number, 77);
            assert_eq!(e.common.value.as_deref(), Some("7"));
            assert_eq!(e.common.gas, "100");
            assert_eq!(e.common.gas_used, "40");
        }
        _ => unreachable!(),
    }
}

#[test]
fn null_javascript_trace_gives_nothing() {
    let results = vec![
        RawTraceResult::Success { result: RawTrace::CallTracer(frame("CALL", vec![])), tx_hash: None },
        RawTraceResult::Success { result: RawTrace::JsNull, tx_hash: None },
    ];
    assert_eq!(parse_traces(results, Schema::ZKsync, 1).unwrap().len(), 0);
}

#[allow(dead_code)]
fn unused_eip1559() -> RawEip1559Tx {
    RawEip1559Tx { hash: [0; 32], nonce: 0, to: TxKind::Create, input: vec![], value: [0; 4], gas_limit: 0, max_fee_per_gas: 0, max_priority_fee_per_gas: 0 }
}

#[test]
fn one_block_through_parse_and_transform() {
    let b = block(header(100, 1_700_000_000), vec![legacy(0xaa), legacy(0xbb)]);
    let receipts = vec![receipt(vec![log(0, Some(100), Some(1_700_000_000))]), receipt(vec![log(1, Some(100), Some(1_700_000_000)), log(2, Some(100), None)])];
    let traces = vec![
        RawTraceResult::Success { result: RawTrace::CallTracer(frame("CALL", vec![frame("CALL", vec![])])), tx_hash: Some([0xaa; 32]) },
        RawTraceResult::Success { result: RawTrace::CallTracer(frame("CREATE", vec![])), tx_hash: Some([0xbb; 32]) },
    ];
    let info = ChainInfo::new(1, "ethereum".to_string(), Schema::Ethereum);
    let parsed = parse_data(&info, 100, Some(b), Some(receipts), Some(traces)).unwrap();
    assert_eq!((parsed.header.len(), parsed.transactions.len(), parsed.transaction_receipts.len(), parsed.logs.len(), parsed.traces.len()), (1, 2, 2, 3, 3));
    let rows = transform_data(&info, parsed, &[Table::Blocks, Table::Transactions, Table::Logs, Table::Traces]).unwrap();
    assert_eq!((rows.blocks.len(), rows.transactions.len(), rows.logs.len(), rows.traces.len()), (1, 2, 3, 3));
}
