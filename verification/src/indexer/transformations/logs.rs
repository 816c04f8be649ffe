use vstd::prelude::*;

use crate::models::common::Schema;
use crate::models::datasets::logs::{
    log_common, CommonRpcLogReceiptData, CommonTransformedLogData, EthereumTransformedLogData,
    RpcLogReceiptData, TransformedLogData, ZKsyncTransformedLogData,
};
use crate::models::errors::{IndexerError, KeyField};
use crate::models::types::B256;
use crate::text::{
    append_decimal, append_prefixed_hex, decimal, hex_lower, lemma_decimal_injective,
    lemma_hex_lower_injective, lemma_hex_lower_len, prefixed_hex,
};

verus! {

/// The primary key of a log row: `log_<chain ID>_<transaction hash>_<log index>`.
pub open spec fn log_id(chain_id: u64, tx_hash: B256, log_index: u64) -> Seq<char> {
    "log_"@ + decimal(chain_id as nat) + "_"@ + prefixed_hex(tx_hash@) + "_"@ + decimal(log_index as nat)
}

/// The primary key of a log row (see `log_id`).
pub fn make_log_id(chain_id: u64, tx_hash: &B256, log_index: u64) -> (r: String)
    ensures
        r@ == log_id(chain_id, *tx_hash, log_index),
{
    let mut s = String::new();
    s.append("log_");
    append_decimal(&mut s, chain_id);
    s.append("_");
    append_prefixed_hex(&mut s, tx_hash.as_slice());
    s.append("_");
    append_decimal(&mut s, log_index);
    s
}

/// The error that a log without a full primary key gives, if any: a missing transaction hash
/// is reported before a missing log index.
pub open spec fn log_key_error(c: CommonRpcLogReceiptData) -> Option<KeyField> {
    if c.tx_hash is None {
        Some(KeyField::TxHash)
    } else if c.log_index is None {
        Some(KeyField::LogIndex)
    } else {
        None
    }
}

/// Whether `row` is the log row of log `l` on a chain with the given schema and ID.
pub open spec fn log_row_from(row: TransformedLogData, l: RpcLogReceiptData, schema: Schema, chain_id: u64) -> bool {
    let c = log_common(l);
    let rc = match row {
        TransformedLogData::Ethereum(e) => e.common,
        TransformedLogData::ZKsync(z) => z.common,
    };
    &&& (row is Ethereum <==> schema == Schema::Ethereum)
    &&& c.tx_hash is Some && c.log_index is Some
    &&& rc.id@ == log_id(chain_id, c.tx_hash.unwrap(), c.log_index.unwrap())
    &&& rc.chain_id == chain_id
    &&& rc.block_time == c.block_time
    &&& rc.block_date == c.block_date
    &&& rc.block_number == c.block_number
    &&& rc.block_hash == c.block_hash
    &&& rc.tx_hash == c.tx_hash
    &&& rc.tx_index == c.tx_index
    &&& rc.log_index == c.log_index
    &&& rc.address == c.address
    &&& rc.topics == c.topics
    &&& rc.data == c.data
}

/// The position of the first log without a full primary key (the list's length if none).
pub open spec fn first_keyless_log(logs: Seq<RpcLogReceiptData>) -> int
    decreases logs.len(),
{
    if logs.len() == 0 {
        0
    } else if log_key_error(log_common(logs[0])) is Some {
        0
    } else {
        1 + first_keyless_log(logs.drop_first())
    }
}

proof fn lemma_first_keyless(logs: Seq<RpcLogReceiptData>, i: int)
    requires
        0 <= i < logs.len(),
        log_key_error(log_common(logs[i])) is Some,
        forall|k: int| 0 <= k < i ==> (#[trigger] log_key_error(log_common(logs[k]))) is None,
    ensures
        first_keyless_log(logs) == i,
    decreases i,
{
    if i > 0 {
        assert(log_key_error(log_common(logs[0])) is None);
        lemma_first_keyless(logs.drop_first(), i - 1);
    }
}

/// The log rows of a list of logs, one per log, in order, each keyed by its chain ID,
/// transaction hash and log index; the error of the first log that lacks its transaction hash
/// or its log index.
pub fn transform_logs(logs: Vec<RpcLogReceiptData>, schema: Schema, chain_id: u64) -> (r: Result<
    Vec<TransformedLogData>,
    IndexerError,
>)
    ensures
        (forall|i: int| 0 <= i < logs@.len() ==> (#[trigger] log_key_error(log_common(logs@[i]))) is None)
            <==> r is Ok,
        r matches Ok(v) ==> v@.len() == logs@.len() && forall|i: int| 0 <= i < logs@.len()
            ==> log_row_from(#[trigger] v@[i], logs@[i], schema, chain_id),
        r matches Err(e) ==> e == (IndexerError::MissingKeyField {
            field: log_key_error(log_common(logs@[first_keyless_log(logs@)])).unwrap(),
        }),
{
    let ghost ls = logs@;
    let mut out: Vec<TransformedLogData> = Vec::new();
    for log in it: logs.into_iter()
        invariant
            it.seq() == ls,
            out@.len() == it.index(),
            forall|k: int| 0 <= k < it.index() ==> log_row_from(#[trigger] out@[k], ls[k], schema, chain_id),
    {
        let c = match log {
            RpcLogReceiptData::Ethereum(e) => e.common,
            RpcLogReceiptData::ZKsync(z) => z.common,
        };
        proof {
            assert(forall|k: int| 0 <= k < it.index() ==> (#[trigger] log_key_error(log_common(ls[k]))) is None) by {
                assert forall|k: int| 0 <= k < it.index() implies (#[trigger] log_key_error(log_common(ls[k]))) is None by {
                    assert(log_row_from(out@[k], ls[k], schema, chain_id));
                }
            }
        }
        let tx_hash = match c.tx_hash {
            Some(h) => h,
            None => {
                proof {
                    lemma_first_keyless(ls, it.index() as int);
                }
                return Err(IndexerError::MissingKeyField { field: KeyField::TxHash });
            },
        };
        let log_index = match c.log_index {
            Some(li) => li,
            None => {
                proof {
                    lemma_first_keyless(ls, it.index() as int);
                }
                return Err(IndexerError::MissingKeyField { field: KeyField::LogIndex });
            },
        };
        let common = CommonTransformedLogData {
            id: make_log_id(chain_id, &tx_hash, log_index),
            chain_id,
            block_time: c.block_time,
            block_date: c.block_date,
            block_number: c.block_number,
            block_hash: c.block_hash,
            tx_hash: c.tx_hash,
            tx_index: c.tx_index,
            log_index: c.log_index,
            address: c.address,
            topics: c.topics,
            data: c.data,
        };
        let row = match schema {
            Schema::Ethereum => TransformedLogData::Ethereum(EthereumTransformedLogData { common }),
            Schema::ZKsync => TransformedLogData::ZKsync(ZKsyncTransformedLogData { common }),
        };
        out.push(row);
    }
    proof {
        assert forall|i: int| 0 <= i < ls.len() implies (#[trigger] log_key_error(log_common(ls[i]))) is None by {
            assert(log_row_from(out@[i], ls[i], schema, chain_id));
        }
    }
    Ok(out)
}

/// Log keys are unique within a chain: two logs get the same key only if they belong to the
/// same transaction and have the same log index.
pub proof fn lemma_log_id_unique(chain_id: u64, h1: B256, i1: u64, h2: B256, i2: u64)
    requires
        log_id(chain_id, h1, i1) == log_id(chain_id, h2, i2),
    ensures
        h1 == h2,
        i1 == i2,
{
    reveal_strlit("_");
    let p = "log_"@ + decimal(chain_id as nat) + "_"@;
    let r1 = prefixed_hex(h1@) + "_"@ + decimal(i1 as nat);
    let r2 = prefixed_hex(h2@) + "_"@ + decimal(i2 as nat);
    assert(log_id(chain_id, h1, i1) =~= p + r1);
    assert(log_id(chain_id, h2, i2) =~= p + r2);
    assert(r1 =~= (p + r1).subrange(p.len() as int, (p + r1).len() as int));
    assert(r2 =~= (p + r2).subrange(p.len() as int, (p + r2).len() as int));
    lemma_hex_lower_len(h1@);
    lemma_hex_lower_len(h2@);
    assert(hex_lower(h1@) =~= r1.subrange(2, 66));
    assert(hex_lower(h2@) =~= r2.subrange(2, 66));
    lemma_hex_lower_injective(h1@, h2@);
    assert(h1 =~= h2);
    assert(decimal(i1 as nat) =~= r1.subrange(67, r1.len() as int));
    assert(decimal(i2 as nat) =~= r2.subrange(67, r2.len() as int));
    lemma_decimal_injective(i1 as nat, i2 as nat);
}

} // verus!
