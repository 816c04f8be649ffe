use vstd::prelude::*;

use crate::indexer::transformations::traces::{
    append_joined_decimals, joined_decimals, lemma_joined_decimals_injective,
};
use crate::models::datasets::blocks::TransformedBlockData;
use crate::models::datasets::logs::TransformedLogData;
use crate::models::datasets::traces::TransformedTraceData;
use crate::models::datasets::transactions::TransformedTransactionData;
use crate::models::errors::{IndexerError, KeyField};
use crate::models::types::B256;
use crate::text::{
    append_decimal, append_prefixed_hex, decimal, hex_lower, lemma_decimal_injective,
    lemma_hex_lower_injective, lemma_hex_lower_len, lemma_split_after_decimal, prefixed_hex, str_eq,
};
use crate::utils::{lemma_table_literals_distinct, parse_decimal, parse_u64_decimal, pow2_64};

verus! {

//////////////////////////////////////// Insert IDs ////////////////////////////////////////

/// What a stored row's insert ID is made of, as the row's JSON carries it: the block number,
/// transaction hash, transaction index, log index and trace address, each when present.
#[derive(Debug, Clone)]
pub struct RowKey {
    pub block_number: Option<u64>,
    pub tx_hash: Option<B256>,
    pub tx_index: Option<u64>,
    pub log_index: Option<u64>,
    pub trace_address: Option<Vec<usize>>,
}

/// The key fields of a block row.
pub fn block_row_key(row: &TransformedBlockData) -> (r: RowKey)
    ensures
        r.block_number == Some(match row {
            TransformedBlockData::Ethereum(e) => e.common.block_number,
            TransformedBlockData::ZKsync(z) => z.common.block_number,
        }),
        r.tx_hash is None && r.tx_index is None && r.log_index is None && r.trace_address is None,
{
    let n = match row {
        TransformedBlockData::Ethereum(e) => e.common.block_number,
        TransformedBlockData::ZKsync(z) => z.common.block_number,
    };
    RowKey { block_number: Some(n), tx_hash: None, tx_index: None, log_index: None, trace_address: None }
}

/// The key fields of a transaction row.
pub fn transaction_row_key(row: &TransformedTransactionData) -> (r: RowKey)
    ensures
        ({
            let c = match row {
                TransformedTransactionData::Ethereum(e) => e.common,
                TransformedTransactionData::ZKsync(z) => z.common,
            };
            r.block_number == c.block_number && r.tx_hash == Some(c.tx_hash) && r.tx_index == c.tx_index
        }),
        r.log_index is None && r.trace_address is None,
{
    let c = match row {
        TransformedTransactionData::Ethereum(e) => &e.common,
        TransformedTransactionData::ZKsync(z) => &z.common,
    };
    RowKey { block_number: c.block_number, tx_hash: Some(c.tx_hash), tx_index: c.tx_index, log_index: None, trace_address: None }
}

/// The key fields of a log row.
pub fn log_row_key(row: &TransformedLogData) -> (r: RowKey)
    ensures
        ({
            let c = match row {
                TransformedLogData::Ethereum(e) => e.common,
                TransformedLogData::ZKsync(z) => z.common,
            };
            r.block_number == c.block_number && r.tx_hash == c.tx_hash && r.tx_index == c.tx_index
                && r.log_index == c.log_index
        }),
        r.trace_address is None,
{
    let c = match row {
        TransformedLogData::Ethereum(e) => &e.common,
        TransformedLogData::ZKsync(z) => &z.common,
    };
    RowKey { block_number: c.block_number, tx_hash: c.tx_hash, tx_index: c.tx_index, log_index: c.log_index, trace_address: None }
}

/// The key fields of a trace row.
pub fn trace_row_key(row: &TransformedTraceData) -> (r: RowKey)
    ensures
        ({
            let c = match row {
                TransformedTraceData::Ethereum(e) => e.common,
                TransformedTraceData::ZKsync(z) => z.common,
            };
            r.block_number == Some(c.block_number) && r.tx_hash == c.tx_hash && r.tx_index == c.tx_index
                && r.trace_address is Some && r.trace_address.unwrap()@ == c.trace_address@
        }),
        r.log_index is None,
{
    let c = match row {
        TransformedTraceData::Ethereum(e) => &e.common,
        TransformedTraceData::ZKsync(z) => &z.common,
    };
    RowKey {
        block_number: Some(c.block_number),
        tx_hash: c.tx_hash,
        tx_index: c.tx_index,
        log_index: None,
        trace_address: Some(c.trace_address.clone()),
    }
}

/// The block number an insert ID uses: the row's, else the first block of the batch.
pub open spec fn key_block(k: RowKey, fallback: u64) -> u64 {
    match k.block_number {
        Some(n) => n,
        None => fallback,
    }
}

/// The key fields that a log row lacks, in the order tx_hash, tx_index, log_index.
pub open spec fn missing_log_fields(k: RowKey) -> Seq<KeyField> {
    (if k.tx_hash is None { seq![KeyField::TxHash] } else { Seq::empty() })
        + (if k.tx_index is None { seq![KeyField::TxIndex] } else { Seq::empty() })
        + (if k.log_index is None { seq![KeyField::LogIndex] } else { Seq::empty() })
}

/// The key fields that a trace row lacks, in the order tx_hash, trace_address.
pub open spec fn missing_trace_fields(k: RowKey) -> Seq<KeyField> {
    (if k.tx_hash is None { seq![KeyField::TxHash] } else { Seq::empty() })
        + (if k.trace_address is None { seq![KeyField::TraceAddress] } else { Seq::empty() })
}

/// The fields an insert ID would need and the row lacks, by table; `None` for a table name
/// that storage does not know.
pub open spec fn missing_key_fields(table: Seq<char>, k: RowKey) -> Option<Seq<KeyField>> {
    if table == "blocks"@ {
        Some(Seq::empty())
    } else if table == "transactions"@ {
        Some(if k.tx_hash is None { seq![KeyField::TxHash] } else { Seq::empty() })
    } else if table == "logs"@ {
        Some(missing_log_fields(k))
    } else if table == "traces"@ {
        Some(missing_trace_fields(k))
    } else {
        None
    }
}

/// The insert ID of a row with all the fields its table needs: `block-<n>`,
/// `tx-<n>-<hash>`, `log-<n>-<hash>-<tx index>-<log index>` or
/// `trace-<n>-<hash>-<trace address joined by ->`, with `n` its block number (see
/// `key_block`) and the hash as `0x` and lower-case hex.
pub open spec fn insert_id(table: Seq<char>, k: RowKey, fallback: u64) -> Seq<char> {
    let n = decimal(key_block(k, fallback) as nat);
    if table == "blocks"@ {
        "block-"@ + n
    } else if table == "transactions"@ {
        "tx-"@ + n + "-"@ + prefixed_hex(k.tx_hash.unwrap()@)
    } else if table == "logs"@ {
        "log-"@ + n + "-"@ + prefixed_hex(k.tx_hash.unwrap()@) + "-"@ + decimal(k.tx_index.unwrap() as nat)
            + "-"@ + decimal(k.log_index.unwrap() as nat)
    } else {
        "trace-"@ + n + "-"@ + prefixed_hex(k.tx_hash.unwrap()@) + "-"@ + joined_decimals(
            k.trace_address.unwrap()@,
            "-"@,
        )
    }
}

fn missing_field_list(a: bool, fa: KeyField, b: bool, fb: KeyField, c: bool, fc: KeyField) -> (r: Vec<KeyField>)
    ensures
        r@ == (if a { seq![fa] } else { Seq::empty() }) + (if b { seq![fb] } else { Seq::empty() }) + (if c {
            seq![fc]
        } else {
            Seq::empty()
        }),
{
    let mut v: Vec<KeyField> = Vec::new();
    if a {
        v.push(fa);
    }
    if b {
        v.push(fb);
    }
    if c {
        v.push(fc);
    }
    assert(v@ =~= (if a { seq![fa] } else { Seq::empty() }) + (if b { seq![fb] } else { Seq::empty() }) + (if c {
        seq![fc]
    } else {
        Seq::empty()
    }));
    v
}

/// The insert ID that deduplicates a row of table `table_id` (see `insert_id`). A row that
/// lacks fields its table needs gives a `MissingInsertIdFields` error that lists them (see
/// `missing_key_fields`); an unknown table gives an `UnknownTable` error; both carry the
/// block number the ID would have used.
pub fn generate_insert_id(table_id: &str, key: &RowKey, fallback_block_number: u64) -> (r: Result<String, IndexerError>)
    ensures
        match missing_key_fields(table_id@, *key) {
            None => r matches Err(IndexerError::UnknownTable { name, block_number }) && name@ == table_id@
                && block_number == key_block(*key, fallback_block_number),
            Some(missing) => if missing.len() == 0 {
                r matches Ok(id) && id@ == insert_id(table_id@, *key, fallback_block_number)
            } else {
                r matches Err(IndexerError::MissingInsertIdFields { fields, block_number }) && fields@ == missing
                    && block_number == key_block(*key, fallback_block_number)
            },
        },
{
    let block_number = match key.block_number {
        Some(n) => n,
        None => fallback_block_number,
    };
    let mut s = String::new();
    if str_eq(table_id, "blocks") {
        s.append("block-");
        append_decimal(&mut s, block_number);
        Ok(s)
    } else if str_eq(table_id, "transactions") {
        match &key.tx_hash {
            Some(h) => {
                s.append("tx-");
                append_decimal(&mut s, block_number);
                s.append("-");
                append_prefixed_hex(&mut s, h.as_slice());
                Ok(s)
            },
            None => {
                let fields = missing_field_list(true, KeyField::TxHash, false, KeyField::TxIndex, false, KeyField::LogIndex);
                assert(fields@ =~= seq![KeyField::TxHash]);
                Err(IndexerError::MissingInsertIdFields { fields, block_number })
            },
        }
    } else if str_eq(table_id, "logs") {
        match (&key.tx_hash, key.tx_index, key.log_index) {
            (Some(h), Some(txi), Some(li)) => {
                s.append("log-");
                append_decimal(&mut s, block_number);
                s.append("-");
                append_prefixed_hex(&mut s, h.as_slice());
                s.append("-");
                append_decimal(&mut s, txi);
                s.append("-");
                append_decimal(&mut s, li);
                Ok(s)
            },
            _ => {
                let fields = missing_field_list(
                    key.tx_hash.is_none(),
                    KeyField::TxHash,
                    key.tx_index.is_none(),
                    KeyField::TxIndex,
                    key.log_index.is_none(),
                    KeyField::LogIndex,
                );
                Err(IndexerError::MissingInsertIdFields { fields, block_number })
            },
        }
    } else if str_eq(table_id, "traces") {
        match (&key.tx_hash, &key.trace_address) {
            (Some(h), Some(addr)) => {
                s.append("trace-");
                append_decimal(&mut s, block_number);
                s.append("-");
                append_prefixed_hex(&mut s, h.as_slice());
                s.append("-");
                append_joined_decimals(&mut s, addr, "-");
                Ok(s)
            },
            _ => {
                let fields = missing_field_list(
                    key.tx_hash.is_none(),
                    KeyField::TxHash,
                    key.trace_address.is_none(),
                    KeyField::TraceAddress,
                    false,
                    KeyField::LogIndex,
                );
                assert(fields@ =~= missing_trace_fields(*key));
                Err(IndexerError::MissingInsertIdFields { fields, block_number })
            },
        }
    } else {
        Err(IndexerError::UnknownTable { name: table_id.to_string(), block_number })
    }
}

/// Reads a hash back from the front of a text: equal texts that start with the display of
/// a 32-byte value and a separator have equal values and equal rests.
proof fn lemma_split_after_hash(h1: B256, h2: B256, r1: Seq<char>, r2: Seq<char>)
    requires
        prefixed_hex(h1@) + seq!['-'] + r1 == prefixed_hex(h2@) + seq!['-'] + r2,
    ensures
        h1 == h2,
        r1 == r2,
{
    let x = prefixed_hex(h1@) + seq!['-'] + r1;
    let y = prefixed_hex(h2@) + seq!['-'] + r2;
    lemma_hex_lower_len(h1@);
    lemma_hex_lower_len(h2@);
    assert(hex_lower(h1@) =~= x.subrange(2, 66));
    assert(hex_lower(h2@) =~= y.subrange(2, 66));
    lemma_hex_lower_injective(h1@, h2@);
    assert(h1 =~= h2);
    assert(r1 =~= x.subrange(67, x.len() as int));
    assert(r2 =~= y.subrange(67, y.len() as int));
}

proof fn lemma_tx_insert_id_unique(n1: nat, n2: nat, h1: B256, h2: B256)
    requires
        "tx-"@ + decimal(n1) + "-"@ + prefixed_hex(h1@) == "tx-"@ + decimal(n2) + "-"@ + prefixed_hex(h2@),
    ensures
        n1 == n2,
        h1 == h2,
{
    reveal_strlit("-");
    let p = "tx-"@;
    let id1 = p + decimal(n1) + "-"@ + prefixed_hex(h1@);
    let id2 = p + decimal(n2) + "-"@ + prefixed_hex(h2@);
    let r1 = prefixed_hex(h1@);
    let r2 = prefixed_hex(h2@);
    assert(decimal(n1) + seq!['-'] + r1 =~= id1.subrange(p.len() as int, id1.len() as int));
    assert(decimal(n2) + seq!['-'] + r2 =~= id2.subrange(p.len() as int, id2.len() as int));
    lemma_split_after_decimal(n1, n2, '-', r1, r2);
    lemma_hex_lower_len(h1@);
    lemma_hex_lower_len(h2@);
    assert(hex_lower(h1@) =~= r1.subrange(2, 66));
    assert(hex_lower(h2@) =~= r2.subrange(2, 66));
    lemma_hex_lower_injective(h1@, h2@);
    assert(h1 =~= h2);
}

proof fn lemma_log_insert_id_unique(n1: nat, n2: nat, h1: B256, h2: B256, a1: nat, a2: nat, b1: nat, b2: nat)
    requires
        "log-"@ + decimal(n1) + "-"@ + prefixed_hex(h1@) + "-"@ + decimal(a1) + "-"@ + decimal(b1) == "log-"@
            + decimal(n2) + "-"@ + prefixed_hex(h2@) + "-"@ + decimal(a2) + "-"@ + decimal(b2),
    ensures
        n1 == n2,
        h1 == h2,
        a1 == a2,
        b1 == b2,
{
    reveal_strlit("-");
    let p = "log-"@;
    let id1 = p + decimal(n1) + "-"@ + prefixed_hex(h1@) + "-"@ + decimal(a1) + "-"@ + decimal(b1);
    let id2 = p + decimal(n2) + "-"@ + prefixed_hex(h2@) + "-"@ + decimal(a2) + "-"@ + decimal(b2);
    let t1 = decimal(a1) + seq!['-'] + decimal(b1);
    let t2 = decimal(a2) + seq!['-'] + decimal(b2);
    let r1 = prefixed_hex(h1@) + seq!['-'] + t1;
    let r2 = prefixed_hex(h2@) + seq!['-'] + t2;
    assert(decimal(n1) + seq!['-'] + r1 =~= id1.subrange(p.len() as int, id1.len() as int));
    assert(decimal(n2) + seq!['-'] + r2 =~= id2.subrange(p.len() as int, id2.len() as int));
    lemma_split_after_decimal(n1, n2, '-', r1, r2);
    lemma_split_after_hash(h1, h2, t1, t2);
    lemma_split_after_decimal(a1, a2, '-', decimal(b1), decimal(b2));
    lemma_decimal_injective(b1, b2);
}

proof fn lemma_no_missing_fields(table: Seq<char>, k: RowKey)
    requires
        missing_key_fields(table, k) == Some(Seq::<KeyField>::empty()),
        table != "blocks"@,
    ensures
        k.tx_hash is Some,
        table == "logs"@ ==> k.tx_index is Some && k.log_index is Some,
        table == "traces"@ ==> k.trace_address is Some,
{
    lemma_table_literals_distinct();
    if table == "transactions"@ {
        if k.tx_hash is None {
            assert(seq![KeyField::TxHash].len() == 1);
        }
    } else if table == "logs"@ {
        let a = if k.tx_hash is None { seq![KeyField::TxHash] } else { Seq::empty() };
        let b = if k.tx_index is None { seq![KeyField::TxIndex] } else { Seq::empty() };
        let c = if k.log_index is None { seq![KeyField::LogIndex] } else { Seq::empty() };
        assert(missing_log_fields(k) == a + b + c);
        assert((a + b + c).len() == a.len() + b.len() + c.len());
    } else if table == "traces"@ {
        let a = if k.tx_hash is None { seq![KeyField::TxHash] } else { Seq::empty() };
        let b = if k.trace_address is None { seq![KeyField::TraceAddress] } else { Seq::empty() };
        assert((a + b).len() == a.len() + b.len());
    }
}

proof fn lemma_trace_insert_id_unique(n1: nat, n2: nat, h1: B256, h2: B256, s1: Seq<usize>, s2: Seq<usize>)
    requires
        "trace-"@ + decimal(n1) + "-"@ + prefixed_hex(h1@) + "-"@ + joined_decimals(s1, "-"@) == "trace-"@
            + decimal(n2) + "-"@ + prefixed_hex(h2@) + "-"@ + joined_decimals(s2, "-"@),
    ensures
        n1 == n2,
        h1 == h2,
        s1 == s2,
{
    reveal_strlit("-");
    assert("-"@ =~= seq!['-']);
    let p = "trace-"@;
    let id1 = p + decimal(n1) + "-"@ + prefixed_hex(h1@) + "-"@ + joined_decimals(s1, "-"@);
    let id2 = p + decimal(n2) + "-"@ + prefixed_hex(h2@) + "-"@ + joined_decimals(s2, "-"@);
    let t1 = joined_decimals(s1, seq!['-']);
    let t2 = joined_decimals(s2, seq!['-']);
    let r1 = prefixed_hex(h1@) + seq!['-'] + t1;
    let r2 = prefixed_hex(h2@) + seq!['-'] + t2;
    assert(decimal(n1) + seq!['-'] + r1 =~= id1.subrange(p.len() as int, id1.len() as int));
    assert(decimal(n2) + seq!['-'] + r2 =~= id2.subrange(p.len() as int, id2.len() as int));
    lemma_split_after_decimal(n1, n2, '-', r1, r2);
    lemma_split_after_hash(h1, h2, t1, t2);
    lemma_joined_decimals_injective(s1, s2, '-');
}

/// Insert IDs are unique within a table: two rows with the fields their table needs get the
/// same ID only if they agree on every field it is made of (block number; transaction hash;
/// transaction and log index, or trace address).
pub proof fn lemma_insert_id_unique(table: Seq<char>, k1: RowKey, f1: u64, k2: RowKey, f2: u64)
    requires
        missing_key_fields(table, k1) == Some(Seq::<KeyField>::empty()),
        missing_key_fields(table, k2) == Some(Seq::<KeyField>::empty()),
        insert_id(table, k1, f1) == insert_id(table, k2, f2),
    ensures
        key_block(k1, f1) == key_block(k2, f2),
        table != "blocks"@ ==> k1.tx_hash == k2.tx_hash,
        table == "logs"@ ==> k1.tx_index == k2.tx_index && k1.log_index == k2.log_index,
        table == "traces"@ ==> k1.trace_address.unwrap()@ == k2.trace_address.unwrap()@,
{
    lemma_table_literals_distinct();
    let n1 = key_block(k1, f1) as nat;
    let n2 = key_block(k2, f2) as nat;
    let id1 = insert_id(table, k1, f1);
    let id2 = insert_id(table, k2, f2);
    if table != "blocks"@ {
        lemma_no_missing_fields(table, k1);
        lemma_no_missing_fields(table, k2);
    }
    if table == "blocks"@ {
        let p = "block-"@;
        assert(decimal(n1) =~= id1.subrange(p.len() as int, id1.len() as int));
        assert(decimal(n2) =~= id2.subrange(p.len() as int, id2.len() as int));
        lemma_decimal_injective(n1, n2);
    } else if table == "transactions"@ {
        lemma_tx_insert_id_unique(n1, n2, k1.tx_hash.unwrap(), k2.tx_hash.unwrap());
    } else if table == "logs"@ {
        lemma_log_insert_id_unique(
            n1,
            n2,
            k1.tx_hash.unwrap(),
            k2.tx_hash.unwrap(),
            k1.tx_index.unwrap() as nat,
            k2.tx_index.unwrap() as nat,
            k1.log_index.unwrap() as nat,
            k2.log_index.unwrap() as nat,
        );
    } else {
        lemma_trace_insert_id_unique(
            n1,
            n2,
            k1.tx_hash.unwrap(),
            k2.tx_hash.unwrap(),
            k1.trace_address.unwrap()@,
            k2.trace_address.unwrap()@,
        );
    }
}

//////////////////////////////////////// Insert batches ////////////////////////////////////////

/// The most bytes a single insert request may carry: the storage limit of 10 MB less a
/// safety margin of 0.5 MB.
pub const MAX_BATCH_BYTES: usize = 9_488_000;

/// The bytes a row is counted with on top of its JSON text.
pub const ROW_OVERHEAD: usize = 200;

/// The bytes that row `i` is counted with: its JSON text's length and the overhead.
pub open spec fn row_bytes(sizes: Seq<usize>, i: int) -> int {
    sizes[i] + ROW_OVERHEAD
}

/// Whether row `i` alone is over the limit of one request.
pub open spec fn oversized(sizes: Seq<usize>, i: int) -> bool {
    row_bytes(sizes, i) > MAX_BATCH_BYTES
}

/// The bytes of the rows of a batch.
pub open spec fn batch_bytes(sizes: Seq<usize>, b: Seq<usize>) -> int
    decreases b.len(),
{
    if b.len() == 0 {
        0
    } else {
        batch_bytes(sizes, b.drop_last()) + row_bytes(sizes, b.last() as int)
    }
}

/// Whether a batch is one request's worth: a single row over the limit, or rows that are
/// each within it and together within it too.
pub open spec fn batch_ok(sizes: Seq<usize>, b: Seq<usize>) -> bool {
    &&& b.len() > 0
    &&& (b.len() == 1 && oversized(sizes, b[0] as int)) || ((forall|j: int| 0 <= j < b.len() ==> !oversized(sizes, #[trigger] b[j] as int))
        && batch_bytes(sizes, b) <= MAX_BATCH_BYTES)
}

/// Whether batch `b` rightly starts a new request after batch `a`: either is a row over the
/// limit, or `b`'s first row would not have fit into `a`.
pub open spec fn boundary_ok(sizes: Seq<usize>, a: Seq<usize>, b: Seq<usize>) -> bool {
    ||| oversized(sizes, b[0] as int)
    ||| (a.len() == 1 && oversized(sizes, a[0] as int))
    ||| batch_bytes(sizes, a) + row_bytes(sizes, b[0] as int) > MAX_BATCH_BYTES
}

/// The rows of a list of batches, batch after batch.
pub open spec fn flatten_rows(bs: Seq<Vec<usize>>) -> Seq<usize>
    decreases bs.len(),
{
    if bs.len() == 0 {
        Seq::empty()
    } else {
        flatten_rows(bs.drop_last()) + bs.last()@
    }
}

/// The row positions `0..n` in order.
pub open spec fn all_rows(n: int) -> Seq<usize> {
    Seq::new(n as nat, |i: int| i as usize)
}

/// Whether a list of batches is how the rows are sent: every row once, in order, in batches
/// that each fit one request (or hold one row over the limit), each batch as full as the
/// next row allows.
pub open spec fn insert_plan(sizes: Seq<usize>, bs: Seq<Vec<usize>>) -> bool {
    &&& flatten_rows(bs) == all_rows(sizes.len() as int)
    &&& forall|k: int| 0 <= k < bs.len() ==> batch_ok(sizes, #[trigger] bs[k]@)
    &&& forall|k: int| 0 < k < bs.len() ==> boundary_ok(sizes, bs[k - 1]@, #[trigger] bs[k]@)
}

proof fn lemma_batch_bytes_push(sizes: Seq<usize>, b: Seq<usize>, x: usize)
    ensures
        batch_bytes(sizes, b.push(x)) == batch_bytes(sizes, b) + row_bytes(sizes, x as int),
{
    assert(b.push(x).drop_last() =~= b);
}

/// Splits rows, given the lengths of their JSON texts, into insert requests (see
/// `insert_plan`): rows are added in order to the current batch; one that would not fit
/// closes the batch first; one over the limit alone is sent by itself.
pub fn plan_insert_batches(sizes: &Vec<usize>) -> (r: Vec<Vec<usize>>)
    requires
        forall|i: int| 0 <= i < sizes@.len() ==> #[trigger] sizes@[i] <= usize::MAX - ROW_OVERHEAD - MAX_BATCH_BYTES,
    ensures
        insert_plan(sizes@, r@),
{
    let ghost sz = sizes@;
    let mut out: Vec<Vec<usize>> = Vec::new();
    let mut current: Vec<usize> = Vec::new();
    let mut current_size: usize = 0;
    let mut i: usize = 0;
    while i < sizes.len()
        invariant
            sz == sizes@,
            forall|j: int| 0 <= j < sz.len() ==> #[trigger] sz[j] <= usize::MAX - ROW_OVERHEAD - MAX_BATCH_BYTES,
            i <= sz.len(),
            flatten_rows(out@) + current@ == all_rows(i as int),
            forall|k: int| 0 <= k < out@.len() ==> batch_ok(sz, #[trigger] out@[k]@),
            forall|k: int| 0 < k < out@.len() ==> boundary_ok(sz, out@[k - 1]@, #[trigger] out@[k]@),
            current_size == batch_bytes(sz, current@),
            current_size <= MAX_BATCH_BYTES,
            forall|j: int| 0 <= j < current@.len() ==> !oversized(sz, #[trigger] current@[j] as int),
            current@.len() > 0 && out@.len() > 0 ==> boundary_ok(sz, out@.last()@, current@),
            current@.len() == 0 && out@.len() > 0 ==> out@.last()@.len() == 1 && oversized(sz, out@.last()@[0] as int),
        decreases sz.len() - i,
    {
        let estimated = sizes[i] + ROW_OVERHEAD;
        if current_size + estimated > MAX_BATCH_BYTES {
            if current.len() > 0 {
                let mut done: Vec<usize> = Vec::new();
                std::mem::swap(&mut done, &mut current);
                proof {
                    let nb = out@.push(done);
                    assert(nb.drop_last() =~= out@);
                    assert(flatten_rows(nb) == flatten_rows(out@) + done@);
                    assert(current@ =~= Seq::<usize>::empty());
                    assert(flatten_rows(nb) + current@ =~= flatten_rows(out@) + done@);
                    assert(batch_ok(sz, done@));
                }
                out.push(done);
                proof {
                    assert forall|k: int| 0 <= k < out@.len() implies batch_ok(sz, #[trigger] out@[k]@) by {}
                }
            }
            current_size = 0;
        }
        if estimated > MAX_BATCH_BYTES {
            let mut single: Vec<usize> = Vec::new();
            single.push(i);
            proof {
                let nb = out@.push(single);
                assert(nb.drop_last() =~= out@);
                assert(current@.len() == 0);
                assert(flatten_rows(nb) =~= flatten_rows(out@) + seq![i]);
                assert(flatten_rows(out@) =~= flatten_rows(out@) + current@);
                assert(all_rows(i + 1) =~= all_rows(i as int).push(i));
                assert(single@[0] == i);
            }
            out.push(single);
            proof {
                assert(flatten_rows(out@) + current@ =~= flatten_rows(out@));
            }
        } else {
            proof {
                lemma_batch_bytes_push(sz, current@, i);
                assert(all_rows(i + 1) =~= all_rows(i as int).push(i));
                assert(flatten_rows(out@) + current@.push(i) =~= (flatten_rows(out@) + current@).push(i));
                if current@.len() > 0 && out@.len() > 0 {
                    assert(current@.push(i)[0] == current@[0]);
                }
            }
            current.push(i);
            current_size = current_size + estimated;
        }
        i = i + 1;
    }
    if current.len() > 0 {
        proof {
            let nb = out@.push(current);
            assert(nb.drop_last() =~= out@);
        }
        out.push(current);
    } else {
        proof {
            assert(flatten_rows(out@) + current@ =~= flatten_rows(out@));
        }
    }
    out
}

//////////////////////////////////////// Resuming ////////////////////////////////////////

/// The smallest of the stored maxima that read as block numbers (`None` if none does): the
/// answer of each table's `MAX(block_number)` query, when the table exists and the answer is
/// a text.
pub open spec fn min_stored_block(cells: Seq<Option<String>>) -> Option<u64>
    decreases cells.len(),
{
    if cells.len() == 0 {
        None
    } else {
        let rest = min_stored_block(cells.drop_last());
        match cells.last() {
            Some(text) => match parse_decimal(text@, pow2_64()) {
                Some(v) => match rest {
                    Some(m) => Some(if (v as u64) < m { v as u64 } else { m }),
                    None => Some(v as u64),
                },
                None => rest,
            },
            None => rest,
        }
    }
}

/// The block number that one table's answer reads as, if it is a text that reads as a
/// `u64` in decimal.
pub open spec fn cell_block(cell: Option<String>) -> Option<nat> {
    match cell {
        Some(text) => parse_decimal(text@, pow2_64()),
        None => None,
    }
}

/// The minimum of the stored maxima: it is at most every table's block number that reads,
/// and it is one of them whenever any reads; with none, there is none.
pub proof fn lemma_min_stored_block_is_minimum(cells: Seq<Option<String>>)
    ensures
        forall|i: int| 0 <= i < cells.len() && (#[trigger] cell_block(cells[i])) is Some ==> {
            &&& min_stored_block(cells) is Some
            &&& min_stored_block(cells).unwrap() <= cell_block(cells[i]).unwrap()
        },
        min_stored_block(cells) matches Some(m) ==> exists|i: int| 0 <= i < cells.len() && #[trigger] cell_block(cells[i]) == Some(m as nat),
        (forall|i: int| 0 <= i < cells.len() ==> (#[trigger] cell_block(cells[i])) is None) ==> min_stored_block(cells) is None,
    decreases cells.len(),
{
    if cells.len() > 0 {
        let init = cells.drop_last();
        lemma_min_stored_block_is_minimum(init);
        let n = cells.len() - 1;
        assert forall|i: int| 0 <= i < n implies cells[i] == init[i] by {}
        match cell_block(cells[n]) {
            Some(v) => {
                assert(v < pow2_64());
                if min_stored_block(init) is Some {
                    let m = min_stored_block(init).unwrap();
                    let k = choose|k: int| 0 <= k < init.len() && #[trigger] cell_block(init[k]) == Some(m as nat);
                    assert(cell_block(cells[k]) == Some(m as nat));
                } else {
                    assert(cell_block(cells[n]) == Some((v as u64) as nat));
                }
            },
            None => {
                if min_stored_block(init) is Some {
                    let m = min_stored_block(init).unwrap();
                    let k = choose|k: int| 0 <= k < init.len() && #[trigger] cell_block(init[k]) == Some(m as nat);
                    assert(cell_block(cells[k]) == Some(m as nat));
                }
            },
        }
    }
}

/// The last block that storage holds for every table: the smallest of the tables' largest
/// block numbers (see `min_stored_block`), 0 when no table has one.
pub fn last_processed_block(cells: &Vec<Option<String>>) -> (r: u64)
    ensures
        r == match min_stored_block(cells@) {
            Some(m) => m,
            None => 0,
        },
        forall|i: int| 0 <= i < cells@.len() && (#[trigger] cell_block(cells@[i])) is Some ==> r <= cell_block(cells@[i]).unwrap(),
        (exists|i: int| 0 <= i < cells@.len() && (#[trigger] cell_block(cells@[i])) is Some) ==> exists|i: int|
            0 <= i < cells@.len() && #[trigger] cell_block(cells@[i]) == Some(r as nat),
        (forall|i: int| 0 <= i < cells@.len() ==> (#[trigger] cell_block(cells@[i])) is None) ==> r == 0,
{
    proof {
        lemma_min_stored_block_is_minimum(cells@);
    }
    let mut min_block: Option<u64> = None;
    let mut i: usize = 0;
    while i < cells.len()
        invariant
            i <= cells@.len(),
            min_block == min_stored_block(cells@.take(i as int)),
        decreases cells@.len() - i,
    {
        proof {
            let t = cells@.take(i + 1);
            assert(t.drop_last() =~= cells@.take(i as int));
            assert(t.last() == cells@[i as int]);
        }
        if let Some(text) = &cells[i] {
            if let Some(v) = parse_u64_decimal(text.as_str()) {
                min_block = Some(match min_block {
                    Some(m) => if v < m { v } else { m },
                    None => v,
                });
            }
        }
        i = i + 1;
    }
    proof {
        assert(cells@.take(cells@.len() as int) =~= cells@);
    }
    match min_block {
        Some(m) => m,
        None => 0,
    }
}

} // verus!
