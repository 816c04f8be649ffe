use blockchain_indexer::models::common::Schema;
use blockchain_indexer::storage::schema::{block_schema, log_schema, trace_schema, transaction_schema, FieldMode, FieldSpec, FieldType};

fn scalars_are_flat(fields: &[FieldSpec]) -> bool {
    fields.iter().all(|f| f.data_type == FieldType::Record || f.fields.is_empty())
}

#[test]
fn schemas_list_their_columns() {
    let blocks = block_schema(Schema::Ethereum);
    assert_eq!(blocks.len(), 23);
    assert_eq!(blocks[0].name, "chain_id");
    assert_eq!(blocks[0].data_type, FieldType::Integer);
    assert_eq!(blocks[0].mode, FieldMode::Required);
    assert_eq!(block_schema(Schema::ZKsync).len(), 25);
    assert_eq!(block_schema(Schema::ZKsync)[23].name, "l1_batch_number");
    for schema in [Schema::Ethereum, Schema::ZKsync] {
        assert!(scalars_are_flat(&block_schema(schema)));
        assert!(scalars_are_flat(&log_schema(schema)));
        assert!(scalars_are_flat(&trace_schema(schema)));
        let txs = transaction_schema(schema);
        assert!(scalars_are_flat(&txs));
        assert_eq!(txs[24].name, "access_list");
        assert_eq!(txs[24].data_type, FieldType::Record);
        assert_eq!(txs[24].mode, FieldMode::Repeated);
        assert_eq!(txs[24].fields.len(), 2);
        assert_eq!(txs[24].fields[0].name, "address");
        assert_eq!(txs[24].fields[1].name, "storage_keys");
        assert!(scalars_are_flat(&txs[24].fields));
    }
}
