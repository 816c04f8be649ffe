use blockchain_indexer::models::common::{replace_hyphens, Chain, ChainInfo, Config, MetricsConfig, Schema};
use blockchain_indexer::utils::{hex_to_u128, hex_to_u64, parse_u64_decimal, Table};
use blockchain_indexer::models::errors::IndexerError;

#[test]
fn chain_from_chain_id_maps_mainnet_and_others() {
    assert_eq!(Chain::from_chain_id(1), Chain::Ethereum);
    assert_eq!(Chain::from_chain_id(324), Chain::ZKsync);
    assert_eq!(Chain::from_chain_id(543210), Chain::ZKsync);
    assert_eq!(Chain::from_chain_id(42161), Chain::ZKsync);
}

#[test]
fn schema_from_chain_id_knows_zksync_chains() {
    assert_eq!(Schema::from_chain_id(1).unwrap(), Schema::Ethereum);
    for id in [232u64, 320, 324, 325, 388, 1217, 1345, 2741, 2904, 9075, 9637, 50104, 61166, 543210] {
        assert_eq!(Schema::from_chain_id(id).unwrap(), Schema::ZKsync);
    }
    assert_eq!(Schema::from_chain_id(10).unwrap(), Schema::Ethereum);
    assert_eq!(Schema::from_chain_id(42161).unwrap(), Schema::Ethereum);
}

#[test]
fn schema_display_names() {
    assert_eq!(Schema::Ethereum.to_string(), "Ethereum");
    assert_eq!(Schema::ZKsync.to_string(), "ZKsync");
}

#[test]
fn chain_info_new_keeps_fields() {
    let info = ChainInfo::new(324, "zksync".to_string(), Schema::ZKsync);
    assert_eq!(info.id, 324);
    assert_eq!(info.name, "zksync");
    assert_eq!(info.schema, Schema::ZKsync);
}

#[test]
fn hex_to_u64_reads_prefixed_hex() {
    assert_eq!(hex_to_u64("0x1a".to_string()).unwrap(), 26);
    assert_eq!(hex_to_u64("ff".to_string()).unwrap(), 255);
    assert_eq!(hex_to_u64("0xFFFFFFFFFFFFFFFF".to_string()).unwrap(), u64::MAX);
    assert_eq!(hex_to_u64("0x0x10".to_string()).unwrap(), 16);
    assert_eq!(hex_to_u64("+f".to_string()).unwrap(), 15);
    assert_eq!(hex_to_u64("0x+a".to_string()).unwrap(), 10);
}

#[test]
fn hex_to_u64_rejects_bad_text() {
    for bad in ["", "0x", "+", "-", "-1", "0xg", "0x10000000000000000", "0x 1", "1_0"] {
        assert!(matches!(hex_to_u64(bad.to_string()), Err(IndexerError::InvalidHex)), "{}", bad);
    }
}

#[test]
fn hex_to_u128_reads_wide_values() {
    assert_eq!(hex_to_u128("0x10000000000000000".to_string()).unwrap(), 1u128 << 64);
    assert_eq!(hex_to_u128("0xffffffffffffffffffffffffffffffff".to_string()).unwrap(), u128::MAX);
    assert!(matches!(hex_to_u128("0x100000000000000000000000000000000".to_string()), Err(IndexerError::InvalidHex)));
}

#[test]
fn parse_u64_decimal_reads_like_str_parse() {
    assert_eq!(parse_u64_decimal("12345"), Some(12345));
    assert_eq!(parse_u64_decimal("+7"), Some(7));
    assert_eq!(parse_u64_decimal("18446744073709551615"), Some(u64::MAX));
    assert_eq!(parse_u64_decimal("18446744073709551616"), None);
    assert_eq!(parse_u64_decimal(""), None);
    assert_eq!(parse_u64_decimal("-1"), None);
    assert_eq!(parse_u64_decimal("1a"), None);
    assert_eq!(parse_u64_decimal("+"), None);
}

#[test]
fn table_names_round_trip() {
    for (name, table) in [
        ("blocks", Table::Blocks),
        ("logs", Table::Logs),
        ("transactions", Table::Transactions),
        ("traces", Table::Traces),
    ] {
        assert_eq!(Table::from_string(&name.to_string()).unwrap(), table);
        assert_eq!(table.to_string(), name);
    }
    match Table::from_string(&"receipts".to_string()) {
        Err(IndexerError::InvalidTableName { name }) => assert_eq!(name, "receipts"),
        other => panic!("unexpected {:?}", other),
    }
}

#[test]
fn table_from_vec_reports_first_invalid_name() {
    let ok = Table::from_vec(vec!["blocks".to_string(), "traces".to_string()]).unwrap();
    assert_eq!(ok, vec![Table::Blocks, Table::Traces]);
    match Table::from_vec(vec!["logs".to_string(), "Blocks".to_string(), "x".to_string()]) {
        Err(IndexerError::InvalidTableName { name }) => assert_eq!(name, "Blocks"),
        other => panic!("unexpected {:?}", other),
    }
    assert_eq!(Table::to_vec(&[Table::Logs, Table::Transactions]), vec!["logs".to_string(), "transactions".to_string()]);
}

#[test]
fn config_chain_name_hyphens_become_underscores() {
    let cfg = Config {
        chain_name: "zksync-era-mainnet".to_string(),
        start_block: Some(5),
        end_block: None,
        chain_tip_buffer: 12,
        rpc_url: "http://localhost:8545".to_string(),
        dataset_location: "US".to_string(),
        datasets: vec!["blocks".to_string()],
        metrics: MetricsConfig { enabled: false, address: "0.0.0.0".to_string(), port: 9100 },
    }
    .normalized();
    assert_eq!(cfg.chain_name, "zksync_era_mainnet");
    assert_eq!(cfg.start_block, Some(5));
    assert_eq!(cfg.chain_tip_buffer, 12);
    assert_eq!(cfg.rpc_url, "http://localhost:8545");
    assert_eq!(cfg.datasets, vec!["blocks".to_string()]);
    assert_eq!(cfg.metrics.port, 9100);
}

#[test]
fn hyphens_become_underscores() {
    assert_eq!(replace_hyphens(""), "");
    assert_eq!(replace_hyphens("--"), "__");
    assert_eq!(replace_hyphens("base-sépolia-2"), "base_sépolia_2");
    assert_eq!(replace_hyphens("mainnet"), "mainnet");
}

#[test]
fn hex_reads_back_formatted_numbers() {
    for n in [0u64, 1, 15, 16, 255, 4096, 0xdead_beef, u64::MAX] {
        assert_eq!(hex_to_u64(format!("{:#x}", n)).unwrap(), n);
        assert_eq!(hex_to_u64(format!("{:x}", n)).unwrap(), n);
    }
}
