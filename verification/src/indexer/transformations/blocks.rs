use vstd::prelude::*;

use crate::models::common::Schema;
use crate::models::datasets::blocks::{
    header_common, CommonRpcHeaderData, CommonTransformedBlockData, EthereumTransformedBlockData,
    RpcHeaderData, TransformedBlockData, ZKsyncTransformedBlockData,
};
use crate::models::errors::IndexerError;

verus! {

/// Whether a block row carries every header field of `h` and the chain ID.
pub open spec fn block_common_from(c: CommonTransformedBlockData, h: CommonRpcHeaderData, chain_id: u64) -> bool {
    &&& c.chain_id == chain_id
    &&& c.block_time == h.block_time
    &&& c.block_date == h.block_date
    &&& c.block_number == h.block_number
    &&& c.block_hash == h.block_hash
    &&& c.parent_hash == h.parent_hash
    &&& c.nonce == h.nonce
    &&& c.gas_limit == h.gas_limit
    &&& c.gas_used == h.gas_used
    &&& c.base_fee_per_gas == h.base_fee_per_gas
    &&& c.blob_gas_used == h.blob_gas_used
    &&& c.excess_blob_gas == h.excess_blob_gas
    &&& c.extra_data == h.extra_data
    &&& c.difficulty == h.difficulty
    &&& c.total_difficulty == h.total_difficulty
    &&& c.size == h.size
    &&& c.miner == h.miner
    &&& c.mix_hash == h.mix_hash
    &&& c.requests_hash == h.requests_hash
    &&& c.logs_bloom == h.logs_bloom
    &&& c.sha3_uncles == h.sha3_uncles
    &&& c.parent_beacon_block_root == h.parent_beacon_block_root
    &&& c.receipts_root == h.receipts_root
    &&& c.state_root == h.state_root
    &&& c.transactions_root == h.transactions_root
    &&& c.withdrawals_root == h.withdrawals_root
}

/// Whether `b` is the block row of header `h` on a chain with the given schema and ID: the
/// header's fields, and on a ZKsync chain its L1 batch fields too.
pub open spec fn block_from_header(b: TransformedBlockData, h: RpcHeaderData, schema: Schema, chain_id: u64) -> bool {
    match (schema, b) {
        (Schema::Ethereum, TransformedBlockData::Ethereum(e)) => block_common_from(e.common, header_common(h), chain_id),
        (Schema::ZKsync, TransformedBlockData::ZKsync(z)) => match h {
            RpcHeaderData::ZKsync(zh) => {
                &&& block_common_from(z.common, zh.common, chain_id)
                &&& z.target_blobs_per_block == zh.target_blobs_per_block
                &&& z.l1_batch_number == zh.l1_batch_number
                &&& z.l1_batch_timestamp == zh.l1_batch_timestamp
            },
            _ => false,
        },
        _ => false,
    }
}

/// Whether every header has the layout that the schema asks for (ZKsync chains need ZKsync
/// headers; an Ethereum chain takes either).
pub open spec fn headers_fit_schema(headers: Seq<RpcHeaderData>, schema: Schema) -> bool {
    schema == Schema::ZKsync ==> forall|i: int| 0 <= i < headers.len() ==> (#[trigger] headers[i]) is ZKsync
}

fn block_common(h: CommonRpcHeaderData, chain_id: u64) -> (c: CommonTransformedBlockData)
    ensures
        block_common_from(c, h, chain_id),
{
    CommonTransformedBlockData {
        chain_id,
        block_time: h.block_time,
        block_date: h.block_date,
        block_number: h.block_number,
        block_hash: h.block_hash,
        parent_hash: h.parent_hash,
        nonce: h.nonce,
        gas_limit: h.gas_limit,
        gas_used: h.gas_used,
        base_fee_per_gas: h.base_fee_per_gas,
        blob_gas_used: h.blob_gas_used,
        excess_blob_gas: h.excess_blob_gas,
        extra_data: h.extra_data,
        difficulty: h.difficulty,
        total_difficulty: h.total_difficulty,
        size: h.size,
        miner: h.miner,
        mix_hash: h.mix_hash,
        requests_hash: h.requests_hash,
        logs_bloom: h.logs_bloom,
        sha3_uncles: h.sha3_uncles,
        parent_beacon_block_root: h.parent_beacon_block_root,
        receipts_root: h.receipts_root,
        state_root: h.state_root,
        transactions_root: h.transactions_root,
        withdrawals_root: h.withdrawals_root,
    }
}

/// The block rows of a list of headers, one per header, in order.
pub fn transform_blocks(headers: Vec<RpcHeaderData>, schema: Schema, chain_id: u64) -> (r: Result<
    Vec<TransformedBlockData>,
    IndexerError,
>)
    requires
        headers_fit_schema(headers@, schema),
    ensures
        r is Ok,
        r.unwrap()@.len() == headers@.len(),
        forall|i: int| 0 <= i < headers@.len() ==> block_from_header(#[trigger] r.unwrap()@[i], headers@[i], schema, chain_id),
{
    let ghost hs = headers@;
    let mut out: Vec<TransformedBlockData> = Vec::new();
    for header in it: headers.into_iter()
        invariant
            it.seq() == hs,
            headers_fit_schema(hs, schema),
            out@.len() == it.index(),
            forall|k: int| 0 <= k < it.index() ==> block_from_header(#[trigger] out@[k], hs[k], schema, chain_id),
    {
        let row = match schema {
            Schema::Ethereum => {
                let common = match header {
                    RpcHeaderData::Ethereum(e) => e.common,
                    RpcHeaderData::ZKsync(z) => z.common,
                };
                TransformedBlockData::Ethereum(EthereumTransformedBlockData { common: block_common(common, chain_id) })
            },
            Schema::ZKsync => {
                match header {
                    RpcHeaderData::ZKsync(z) => TransformedBlockData::ZKsync(ZKsyncTransformedBlockData {
                        common: block_common(z.common, chain_id),
                        target_blobs_per_block: z.target_blobs_per_block,
                        l1_batch_number: z.l1_batch_number,
                        l1_batch_timestamp: z.l1_batch_timestamp,
                    }),
                    RpcHeaderData::Ethereum(_) => {
                        proof {
                            assert(hs[it.index() as int] is ZKsync);
                        }
                        return Ok(out);
                    },
                }
            },
        };
        out.push(row);
    }
    Ok(out)
}

} // verus!
