use vstd::prelude::*;

use crate::models::common::Schema;
use crate::models::datasets::logs::{
    CommonRpcLogReceiptData, EthereumRpcLogReceiptData, RpcLogReceiptData, ZKsyncRpcLogReceiptData,
};
use crate::models::datasets::transactions::{
    CommonRpcTransactionReceiptData, EthereumRpcTransactionReceiptData, RpcTransactionReceiptData,
    ZKsyncRpcTransactionReceiptData,
};
use crate::models::errors::IndexerError;
use crate::models::rpc::{RawLog, RawReceipt, RawReceiptStatus};
use crate::models::types::{date_naive, date_of, BlockTime};
use crate::utils::{
    datetime_from_timestamp, optional_hex, optional_hex_u64, optional_hex_value, pow2_64,
    sanitize_block_time, sanitized_time, time_of_timestamp, to_wrapped_i64, wrapped_i64,
};

verus! {

/// The success flag of a receipt: its EIP-658 status, none for a pre-Byzantium state root.
pub open spec fn status_of(s: RawReceiptStatus) -> Option<bool> {
    match s {
        RawReceiptStatus::Eip658(ok) => Some(ok),
        RawReceiptStatus::PostState(_) => None,
    }
}

/// The fields of a receipt that every chain shares.
pub open spec fn receipt_fields(r: RawReceipt) -> CommonRpcTransactionReceiptData {
    CommonRpcTransactionReceiptData {
        block_number: r.block_number,
        block_hash: r.block_hash,
        tx_hash: r.transaction_hash,
        tx_index: r.transaction_index,
        tx_type: r.tx_type,
        status: status_of(r.status),
        from_address: r.from,
        to_address: r.to,
        contract_address: r.contract_address,
        gas_used: r.gas_used,
        effective_gas_price: r.effective_gas_price,
        cumulative_gas_used: r.cumulative_gas_used,
    }
}

/// The parsed receipt of a raw receipt on a chain with the given schema; a ZKsync receipt also
/// carries its L1 batch number and index in the batch.
pub open spec fn receipt_data(r: RawReceipt, schema: Schema) -> RpcTransactionReceiptData {
    match schema {
        Schema::Ethereum => RpcTransactionReceiptData::Ethereum(
            EthereumRpcTransactionReceiptData { common: receipt_fields(r) },
        ),
        Schema::ZKsync => RpcTransactionReceiptData::ZKsync(
            ZKsyncRpcTransactionReceiptData {
                common: receipt_fields(r),
                l1_batch_number: optional_hex_value(r.l1_batch_number),
                l1_batch_tx_index: optional_hex_value(r.l1_batch_tx_index),
            },
        ),
    }
}

/// Whether the L1 batch fields of a ZKsync receipt that are present read as hexadecimal `u64`s.
pub open spec fn receipt_batch_fields_valid(r: RawReceipt) -> bool {
    &&& optional_hex(r.l1_batch_number, pow2_64()) is Ok
    &&& optional_hex(r.l1_batch_tx_index, pow2_64()) is Ok
}

/// The parsed receipts of a block, one per raw receipt, in order; this never fails.
pub fn parse_transaction_receipts(receipts: &Vec<RawReceipt>, schema: Schema) -> (r: Result<
    Vec<RpcTransactionReceiptData>,
    IndexerError,
>)
    requires
        schema == Schema::ZKsync ==> forall|i: int| 0 <= i < receipts@.len() ==> receipt_batch_fields_valid(#[trigger] receipts@[i]),
    ensures
        r matches Ok(v) && v@.len() == receipts@.len() && forall|i: int| 0 <= i < receipts@.len() ==> #[trigger] v@[i] == receipt_data(receipts@[i], schema),
{
    let mut out: Vec<RpcTransactionReceiptData> = Vec::new();
    let mut i: usize = 0;
    while i < receipts.len()
        invariant
            i <= receipts@.len(),
            out@.len() == i,
            schema == Schema::ZKsync ==> forall|k: int| 0 <= k < receipts@.len() ==> receipt_batch_fields_valid(#[trigger] receipts@[k]),
            forall|k: int| 0 <= k < i ==> #[trigger] out@[k] == receipt_data(receipts@[k], schema),
        decreases receipts@.len() - i,
    {
        let r = &receipts[i];
        let status = match r.status {
            RawReceiptStatus::Eip658(ok) => Some(ok),
            RawReceiptStatus::PostState(_) => None,
        };
        let common = CommonRpcTransactionReceiptData {
            block_number: r.block_number,
            block_hash: r.block_hash,
            tx_hash: r.transaction_hash,
            tx_index: r.transaction_index,
            tx_type: r.tx_type,
            status,
            from_address: r.from,
            to_address: r.to,
            contract_address: r.contract_address,
            gas_used: r.gas_used,
            effective_gas_price: r.effective_gas_price,
            cumulative_gas_used: r.cumulative_gas_used,
        };
        let parsed = match schema {
            Schema::Ethereum => RpcTransactionReceiptData::Ethereum(EthereumRpcTransactionReceiptData { common }),
            Schema::ZKsync => {
                proof {
                    assert(receipt_batch_fields_valid(receipts@[i as int]));
                }
                let l1_batch_number = match optional_hex_u64(&r.l1_batch_number) {
                    Ok(v) => v,
                    Err(_) => None,
                };
                let l1_batch_tx_index = match optional_hex_u64(&r.l1_batch_tx_index) {
                    Ok(v) => v,
                    Err(_) => None,
                };
                RpcTransactionReceiptData::ZKsync(
                    ZKsyncRpcTransactionReceiptData { common, l1_batch_number, l1_batch_tx_index },
                )
            },
        };
        out.push(parsed);
        i = i + 1;
    }
    Ok(out)
}

/// The time of a log's block: its block timestamp read as a UTC date-time, moved as
/// `sanitized_time` says when the log also carries its block number.
pub open spec fn log_time(l: RawLog) -> Option<BlockTime> {
    let stamped = match l.block_timestamp {
        Some(ts) => time_of_timestamp(wrapped_i64(ts)),
        None => None,
    };
    match (l.block_number, stamped) {
        (Some(n), Some(t)) => Some(sanitized_time(n, t)),
        _ => stamped,
    }
}

/// Whether `d` is the parsed log of raw log `l` on a chain with the given schema.
pub open spec fn log_data_from(d: RpcLogReceiptData, l: RawLog, schema: Schema) -> bool {
    let c = match d {
        RpcLogReceiptData::Ethereum(e) => e.common,
        RpcLogReceiptData::ZKsync(z) => z.common,
    };
    &&& (d is Ethereum <==> schema == Schema::Ethereum)
    &&& c.block_time == log_time(l)
    &&& c.block_date == (match log_time(l) { Some(t) => Some(date_of(t)), None => None })
    &&& c.block_number == l.block_number
    &&& c.block_hash == l.block_hash
    &&& c.tx_hash == l.transaction_hash
    &&& c.tx_index == l.transaction_index
    &&& c.log_index == l.log_index
    &&& c.address == l.address
    &&& c.topics == l.topics
    &&& c.data == l.data
}

/// The logs of a list of receipts, receipt after receipt, each receipt's in order.
pub open spec fn receipts_logs(rs: Seq<RawReceipt>) -> Seq<RawLog>
    decreases rs.len(),
{
    if rs.len() == 0 {
        Seq::empty()
    } else {
        receipts_logs(rs.drop_last()) + rs.last().logs@
    }
}

fn parse_log(log: RawLog, schema: Schema) -> (d: RpcLogReceiptData)
    ensures
        log_data_from(d, log, schema),
{
    let stamped = match log.block_timestamp {
        Some(ts) => datetime_from_timestamp(to_wrapped_i64(ts)),
        None => None,
    };
    let block_time = match (log.block_number, stamped) {
        (Some(n), Some(t)) => match sanitize_block_time(n, t) {
            Ok(s) => Some(s),
            Err(_) => Some(t),
        },
        _ => stamped,
    };
    let block_date = match block_time {
        Some(t) => Some(date_naive(t)),
        None => None,
    };
    let common = CommonRpcLogReceiptData {
        block_time,
        block_date,
        block_number: log.block_number,
        block_hash: log.block_hash,
        tx_hash: log.transaction_hash,
        tx_index: log.transaction_index,
        log_index: log.log_index,
        address: log.address,
        topics: log.topics,
        data: log.data,
    };
    match schema {
        Schema::Ethereum => RpcLogReceiptData::Ethereum(EthereumRpcLogReceiptData { common }),
        Schema::ZKsync => RpcLogReceiptData::ZKsync(ZKsyncRpcLogReceiptData { common }),
    }
}

/// The parsed logs of a block's receipts: one per log, receipt after receipt, each
/// receipt's logs in order; this never fails.
pub fn parse_log_receipts(receipts: Vec<RawReceipt>, schema: Schema) -> (r: Result<Vec<RpcLogReceiptData>, IndexerError>)
    ensures
        r matches Ok(v) && v@.len() == receipts_logs(receipts@).len() && forall|i: int| 0 <= i < v@.len()
            ==> log_data_from(#[trigger] v@[i], receipts_logs(receipts@)[i], schema),
{
    let ghost rs = receipts@;
    let mut out: Vec<RpcLogReceiptData> = Vec::new();
    for receipt in it: receipts.into_iter()
        invariant
            it.seq() == rs,
            out@.len() == receipts_logs(rs.take(it.index() as int)).len(),
            forall|k: int| 0 <= k < out@.len() ==> log_data_from(#[trigger] out@[k], receipts_logs(rs.take(it.index() as int))[k], schema),
    {
        let ghost done = receipts_logs(rs.take(it.index() as int));
        let ghost ls = receipt.logs@;
        proof {
            let t = rs.take(it.index() + 1);
            assert(t.drop_last() =~= rs.take(it.index() as int));
            assert(receipts_logs(t) == done + ls);
        }
        for log in it2: receipt.logs.into_iter()
            invariant
                it2.seq() == ls,
                out@.len() == done.len() + it2.index(),
                forall|k: int| 0 <= k < out@.len() ==> log_data_from(#[trigger] out@[k], (done + ls)[k], schema),
        {
            let d = parse_log(log, schema);
            out.push(d);
        }
    }
    proof {
        assert(rs.take(rs.len() as int) =~= rs);
    }
    Ok(out)
}

/// Whether the L1 batch fields of every receipt that has them read as hexadecimal `u64`s
/// (the condition that `parse_transaction_receipts` requires on a ZKsync chain).
pub fn receipt_batch_fields_readable(receipts: &Vec<RawReceipt>) -> (r: bool)
    ensures
        r == forall|i: int| 0 <= i < receipts@.len() ==> receipt_batch_fields_valid(#[trigger] receipts@[i]),
{
    let mut i: usize = 0;
    while i < receipts.len()
        invariant
            i <= receipts@.len(),
            forall|k: int| 0 <= k < i ==> receipt_batch_fields_valid(#[trigger] receipts@[k]),
        decreases receipts@.len() - i,
    {
        let r = &receipts[i];
        if optional_hex_u64(&r.l1_batch_number).is_err() || optional_hex_u64(&r.l1_batch_tx_index).is_err() {
            assert(!receipt_batch_fields_valid(receipts@[i as int]));
            return false;
        }
        i = i + 1;
    }
    true
}

} // verus!
