use vstd::prelude::*;

use crate::indexer::transformations::traces::{
    epoch_date, epoch_time, find_block, find_block_spec, BlockInfo,
};
use crate::models::common::{ChainInfo, Schema};
use crate::models::datasets::transactions::{
    receipt_common, tx_common, CommonTransformedTransactionData, EthereumTransformedTransactionData,
    RpcTransactionData, RpcTransactionReceiptData, TransformedTransactionData,
    ZKsyncTransformedTransactionData,
};
use crate::models::errors::IndexerError;
use crate::models::types::{BlockDate, BlockTime};

verus! {

/// The transaction type that a row carries: the receipt's unless it is 0 (the value a
/// missing type leaves), else the transaction's.
pub open spec fn row_tx_type(tx_type: u8, receipt_type: u8) -> u8 {
    if receipt_type != 0 { receipt_type } else { tx_type }
}

/// Whether every transaction that gets paired with a receipt has the layout of the chain's
/// schema.
pub open spec fn transactions_fit_schema(txs: Seq<RpcTransactionData>, n: int, schema: Schema) -> bool {
    forall|i: int| 0 <= i < n && i < txs.len() ==> match schema {
        Schema::Ethereum => (#[trigger] txs[i]) is Ethereum,
        Schema::ZKsync => txs[i] is ZKsync,
    }
}

/// Whether `row` is the transaction row of `tx` joined with its receipt `rc`: the block's
/// time and date come from `blocks` by the transaction's block number (the epoch when either
/// is missing); the block, hash, index, outcome, sender, recipient and gas accounting come
/// from the receipt; the rest from the transaction.
pub open spec fn tx_row_from(
    row: TransformedTransactionData,
    tx: RpcTransactionData,
    rc: RpcTransactionReceiptData,
    chain: ChainInfo,
    blocks: Seq<BlockInfo>,
) -> bool {
    let t = tx_common(tx);
    let r = receipt_common(rc);
    let b = match t.block_number {
        Some(n) => find_block_spec(blocks, n),
        None => None,
    };
    let c = match row {
        TransformedTransactionData::Ethereum(e) => e.common,
        TransformedTransactionData::ZKsync(z) => z.common,
    };
    &&& c.chain_id == chain.id
    &&& c.block_time == (match b { Some(x) => x.time, None => epoch_time() })
    &&& c.block_date == (match b { Some(x) => x.date, None => epoch_date() })
    &&& c.block_number == r.block_number
    &&& c.block_hash == r.block_hash
    &&& c.tx_hash == r.tx_hash
    &&& c.tx_index == r.tx_index
    &&& c.tx_type == row_tx_type(t.tx_type, r.tx_type)
    &&& c.status == r.status
    &&& c.nonce == t.nonce
    &&& c.from_address == r.from_address
    &&& c.to_address == r.to_address
    &&& c.contract_address == r.contract_address
    &&& c.input == t.input
    &&& c.value == t.value
    &&& c.gas_price == t.gas_price
    &&& c.gas_limit == t.gas_limit
    &&& c.gas_used == r.gas_used
    &&& c.max_fee_per_gas == t.max_fee_per_gas
    &&& c.max_priority_fee_per_gas == t.max_priority_fee_per_gas
    &&& c.effective_gas_price == r.effective_gas_price
    &&& c.cumulative_gas_used == r.cumulative_gas_used
    &&& c.blob_versioned_hashes == t.blob_versioned_hashes
    &&& match (row, tx) {
        (TransformedTransactionData::Ethereum(e), RpcTransactionData::Ethereum(et)) => {
            &&& chain.schema == Schema::Ethereum
            &&& e.max_fee_per_blob_gas == et.max_fee_per_blob_gas
            &&& e.blobs == et.blobs
            &&& e.commitments == et.commitments
            &&& e.proofs == et.proofs
        },
        (TransformedTransactionData::ZKsync(z), RpcTransactionData::ZKsync(zt)) => {
            &&& chain.schema == Schema::ZKsync
            &&& z.l1_batch_number == zt.l1_batch_number
            &&& z.l1_batch_tx_index == zt.l1_batch_tx_index
        },
        _ => false,
    }
}

/// The smaller of two lengths: how many transaction/receipt pairs a zip makes.
pub open spec fn pair_count(a: int, b: int) -> int {
    if a < b { a } else { b }
}

/// The transaction rows of transactions paired with their receipts position by position
/// (as far as the shorter list goes), joined as `tx_row_from` says; this never fails.
pub fn transform_transactions(
    transactions: Vec<RpcTransactionData>,
    receipts: Vec<RpcTransactionReceiptData>,
    chain_info: &ChainInfo,
    block_map: &Vec<BlockInfo>,
) -> (r: Result<Vec<TransformedTransactionData>, IndexerError>)
    requires
        transactions_fit_schema(transactions@, receipts@.len() as int, chain_info.schema),
    ensures
        r matches Ok(v) && v@.len() == pair_count(transactions@.len() as int, receipts@.len() as int)
            && forall|i: int| 0 <= i < v@.len() ==> tx_row_from(#[trigger] v@[i], transactions@[i], receipts@[i], *chain_info, block_map@),
{
    let ghost ts = transactions@;
    let mut out: Vec<TransformedTransactionData> = Vec::new();
    let mut i: usize = 0;
    for tx in it: transactions.into_iter()
        invariant
            it.seq() == ts,
            i == it.index(),
            out@.len() == i,
            i <= receipts@.len(),
            transactions_fit_schema(ts, receipts@.len() as int, chain_info.schema),
            forall|k: int| 0 <= k < i ==> tx_row_from(#[trigger] out@[k], ts[k], receipts@[k], *chain_info, block_map@),
    {
        if i >= receipts.len() {
            return Ok(out);
        }
        let ghost txg = tx;
        let rc = match &receipts[i] {
            RpcTransactionReceiptData::Ethereum(e) => &e.common,
            RpcTransactionReceiptData::ZKsync(z) => &z.common,
        };
        let tx_type = match &tx {
            RpcTransactionData::Ethereum(e) => e.common.tx_type,
            RpcTransactionData::ZKsync(z) => z.common.tx_type,
        };
        let tx_block = match &tx {
            RpcTransactionData::Ethereum(e) => e.common.block_number,
            RpcTransactionData::ZKsync(z) => z.common.block_number,
        };
        let block = match tx_block {
            Some(n) => find_block(block_map, n),
            None => None,
        };
        let (block_time, block_date) = match block {
            Some(b) => (b.time, b.date),
            None => (BlockTime { secs: 0 }, BlockDate { days: 0 }),
        };
        let row_type = if rc.tx_type != 0 { rc.tx_type } else { tx_type };
        proof {
            assert(ts[i as int] == txg);
            assert(match chain_info.schema {
                Schema::Ethereum => ts[i as int] is Ethereum,
                Schema::ZKsync => ts[i as int] is ZKsync,
            });
        }
        let row = match tx {
            RpcTransactionData::Ethereum(et) => {
                let t = et.common;
                TransformedTransactionData::Ethereum(EthereumTransformedTransactionData {
                    common: CommonTransformedTransactionData {
                        chain_id: chain_info.id,
                        block_time,
                        block_date,
                        block_number: rc.block_number,
                        block_hash: rc.block_hash,
                        tx_hash: rc.tx_hash,
                        tx_index: rc.tx_index,
                        tx_type: row_type,
                        status: rc.status,
                        nonce: t.nonce,
                        from_address: rc.from_address,
                        to_address: rc.to_address,
                        contract_address: rc.contract_address,
                        input: t.input,
                        value: t.value,
                        gas_price: t.gas_price,
                        gas_limit: t.gas_limit,
                        gas_used: rc.gas_used,
                        max_fee_per_gas: t.max_fee_per_gas,
                        max_priority_fee_per_gas: t.max_priority_fee_per_gas,
                        effective_gas_price: rc.effective_gas_price,
                        cumulative_gas_used: rc.cumulative_gas_used,
                        blob_versioned_hashes: t.blob_versioned_hashes,
                    },
                    max_fee_per_blob_gas: et.max_fee_per_blob_gas,
                    blobs: et.blobs,
                    commitments: et.commitments,
                    proofs: et.proofs,
                })
            },
            RpcTransactionData::ZKsync(zt) => {
                let t = zt.common;
                TransformedTransactionData::ZKsync(ZKsyncTransformedTransactionData {
                    common: CommonTransformedTransactionData {
                        chain_id: chain_info.id,
                        block_time,
                        block_date,
                        block_number: rc.block_number,
                        block_hash: rc.block_hash,
                        tx_hash: rc.tx_hash,
                        tx_index: rc.tx_index,
                        tx_type: row_type,
                        status: rc.status,
                        nonce: t.nonce,
                        from_address: rc.from_address,
                        to_address: rc.to_address,
                        contract_address: rc.contract_address,
                        input: t.input,
                        value: t.value,
                        gas_price: t.gas_price,
                        gas_limit: t.gas_limit,
                        gas_used: rc.gas_used,
                        max_fee_per_gas: t.max_fee_per_gas,
                        max_priority_fee_per_gas: t.max_priority_fee_per_gas,
                        effective_gas_price: rc.effective_gas_price,
                        cumulative_gas_used: rc.cumulative_gas_used,
                        blob_versioned_hashes: t.blob_versioned_hashes,
                    },
                    l1_batch_number: zt.l1_batch_number,
                    l1_batch_tx_index: zt.l1_batch_tx_index,
                })
            },
        };
        out.push(row);
        i = i + 1;
    }
    Ok(out)
}

} // verus!
