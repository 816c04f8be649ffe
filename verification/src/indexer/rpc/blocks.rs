use vstd::prelude::*;

use crate::models::common::{Schema, TransactionTo};
use crate::models::datasets::blocks::{
    CommonRpcHeaderData, EthereumRpcHeaderData, RpcHeaderData, ZKsyncRpcHeaderData,
};
use crate::models::errors::IndexerError;
use crate::models::datasets::transactions::{
    tx_common, CommonRpcTransactionData, EthereumRpcTransactionData, RpcTransactionData,
    ZKsyncRpcTransactionData,
};
use crate::models::errors::{BlockError, RequiredTxField};
use crate::models::rpc::{
    RawBlock, RawBlockTransactions, RawHeader, RawTransaction, RawTxEnvelope, RawUnknownTx,
};
use crate::models::types::{date_naive, date_of, limbs_value, Address, BlockTime, B256};
use crate::text::{decimal, optional_decimal_matches, optional_u256_to_decimal, u256_to_decimal};
use crate::utils::{
    datetime_from_timestamp, hex_number, hex_to_u64, optional_hex, optional_hex_u128,
    optional_hex_u64, optional_hex_value, pow2_128, pow2_64, sanitize_block_time, sanitized_time,
    time_of_timestamp, to_wrapped_i64, wrapped_i64,
};

verus! {

/// The stored time of a block: its timestamp read as a UTC date-time and moved as
/// `sanitized_time` says; none when no date-time can hold the timestamp.
pub open spec fn header_time(h: RawHeader) -> Option<BlockTime> {
    match time_of_timestamp(wrapped_i64(h.timestamp)) {
        Some(t) => Some(sanitized_time(h.number, t)),
        None => None,
    }
}

/// The time of an optional hexadecimal Unix timestamp: none when the field is missing, an
/// `InvalidHex` error when it does not read as a `u64`, an `InvalidTimestamp` error when no
/// UTC date-time can hold it.
pub open spec fn optional_hex_time(s: Option<String>) -> Result<Option<BlockTime>, IndexerError> {
    match optional_hex(s, pow2_64()) {
        Err(e) => Err(e),
        Ok(None) => Ok(None),
        Ok(Some(v)) => match time_of_timestamp(wrapped_i64(v as u64)) {
            Some(t) => Ok(Some(t)),
            None => Err(IndexerError::InvalidTimestamp { timestamp: v as u64 }),
        },
    }
}

/// The error that parsing a block's header gives, if any: its own timestamp first, then, on a
/// ZKsync chain, its L1 batch number and its L1 batch timestamp.
pub open spec fn header_error(b: RawBlock, schema: Schema) -> Option<IndexerError> {
    if header_time(b.header) is None {
        Some(IndexerError::InvalidTimestamp { timestamp: b.header.timestamp })
    } else if schema == Schema::ZKsync && optional_hex(b.l1_batch_number, pow2_64()) is Err {
        Some(IndexerError::InvalidHex)
    } else if schema == Schema::ZKsync && optional_hex_time(b.l1_batch_timestamp) is Err {
        Some(optional_hex_time(b.l1_batch_timestamp)->Err_0)
    } else {
        None
    }
}

/// Whether `c` holds the header fields of `h`, with the given stored time.
pub open spec fn header_fields_from(c: CommonRpcHeaderData, h: RawHeader, t: BlockTime) -> bool {
    &&& c.block_time == t
    &&& c.block_date == date_of(t)
    &&& c.block_number == h.number
    &&& c.block_hash == h.hash
    &&& c.parent_hash == h.parent_hash
    &&& c.nonce == h.nonce
    &&& c.gas_limit == h.gas_limit
    &&& c.gas_used == h.gas_used
    &&& c.base_fee_per_gas == h.base_fee_per_gas
    &&& c.blob_gas_used == h.blob_gas_used
    &&& c.excess_blob_gas == h.excess_blob_gas
    &&& c.extra_data@ == h.extra_data@
    &&& c.difficulty@ == decimal(limbs_value(h.difficulty@))
    &&& optional_decimal_matches(c.total_difficulty, h.total_difficulty)
    &&& optional_decimal_matches(c.size, h.size)
    &&& c.miner == h.beneficiary
    &&& c.mix_hash == h.mix_hash
    &&& c.requests_hash == h.requests_hash
    &&& c.logs_bloom == h.logs_bloom
    &&& c.sha3_uncles == h.ommers_hash
    &&& c.parent_beacon_block_root == h.parent_beacon_block_root
    &&& c.receipts_root == h.receipts_root
    &&& c.state_root == h.state_root
    &&& c.transactions_root == h.transactions_root
    &&& c.withdrawals_root == h.withdrawals_root
}

/// Whether `d` is the parsed header of block `b` on a chain with the given schema (for a
/// block whose header parses without error).
pub open spec fn header_from(d: RpcHeaderData, b: RawBlock, schema: Schema) -> bool {
    match (schema, d) {
        (Schema::Ethereum, RpcHeaderData::Ethereum(e)) => header_fields_from(e.common, b.header, header_time(b.header).unwrap()),
        (Schema::ZKsync, RpcHeaderData::ZKsync(z)) => {
            &&& header_fields_from(z.common, b.header, header_time(b.header).unwrap())
            &&& z.target_blobs_per_block == b.header.target_blobs_per_block
            &&& z.l1_batch_number == optional_hex_value(b.l1_batch_number)
            &&& z.l1_batch_timestamp == optional_hex_time(b.l1_batch_timestamp)->Ok_0
        },
        _ => false,
    }
}

/// Reads an optional hexadecimal Unix timestamp as a time (see `optional_hex_time`).
pub fn parse_optional_hex_time(s: &Option<String>) -> (r: Result<Option<BlockTime>, IndexerError>)
    ensures
        r == optional_hex_time(*s),
{
    match s {
        None => Ok(None),
        Some(text) => {
            let v = match hex_to_u64(text.clone()) {
                Ok(v) => v,
                Err(e) => return Err(e),
            };
            match datetime_from_timestamp(to_wrapped_i64(v)) {
                Some(t) => Ok(Some(t)),
                None => Err(IndexerError::InvalidTimestamp { timestamp: v }),
            }
        },
    }
}

/// The header of a block as one parsed header (in a list, as the other parsers return
/// theirs); the error of `header_error` when there is one.
pub fn parse_header(block: &RawBlock, schema: Schema) -> (r: Result<Vec<RpcHeaderData>, IndexerError>)
    ensures
        match header_error(*block, schema) {
            Some(e) => r == Err::<Vec<RpcHeaderData>, IndexerError>(e),
            None => r matches Ok(v) && v@.len() == 1 && header_from(v@[0], *block, schema),
        },
{
    let h = &block.header;
    let stamped = match datetime_from_timestamp(to_wrapped_i64(h.timestamp)) {
        Some(t) => t,
        None => return Err(IndexerError::InvalidTimestamp { timestamp: h.timestamp }),
    };
    let block_time = match sanitize_block_time(h.number, stamped) {
        Ok(t) => t,
        Err(e) => return Err(e),
    };
    let common = CommonRpcHeaderData {
        block_time,
        block_date: date_naive(block_time),
        block_number: h.number,
        block_hash: h.hash,
        parent_hash: h.parent_hash,
        nonce: h.nonce,
        gas_limit: h.gas_limit,
        gas_used: h.gas_used,
        base_fee_per_gas: h.base_fee_per_gas,
        blob_gas_used: h.blob_gas_used,
        excess_blob_gas: h.excess_blob_gas,
        extra_data: h.extra_data.clone(),
        difficulty: u256_to_decimal(h.difficulty),
        total_difficulty: optional_u256_to_decimal(&h.total_difficulty),
        size: optional_u256_to_decimal(&h.size),
        miner: h.beneficiary,
        mix_hash: h.mix_hash,
        requests_hash: h.requests_hash,
        logs_bloom: h.logs_bloom,
        sha3_uncles: h.ommers_hash,
        parent_beacon_block_root: h.parent_beacon_block_root,
        receipts_root: h.receipts_root,
        state_root: h.state_root,
        transactions_root: h.transactions_root,
        withdrawals_root: h.withdrawals_root,
    };
    let header = match schema {
        Schema::Ethereum => RpcHeaderData::Ethereum(EthereumRpcHeaderData { common }),
        Schema::ZKsync => {
            let l1_batch_number = match optional_hex_u64(&block.l1_batch_number) {
                Ok(v) => v,
                Err(e) => return Err(e),
            };
            let l1_batch_timestamp = match parse_optional_hex_time(&block.l1_batch_timestamp) {
                Ok(v) => v,
                Err(e) => return Err(e),
            };
            RpcHeaderData::ZKsync(ZKsyncRpcHeaderData {
                common,
                target_blobs_per_block: h.target_blobs_per_block,
                l1_batch_number,
                l1_batch_timestamp,
            })
        },
    };
    let mut out: Vec<RpcHeaderData> = Vec::new();
    out.push(header);
    Ok(out)
}

//////////////////////////////////////// Transactions ////////////////////////////////////////

/// The all-zero address.
pub open spec fn zero_address() -> Address {
    vstd::array::spec_array_fill_for_copy_type::<u8, 20>(0u8)
}

/// The sender of a transaction: the `from` field of its response, the zero address without one.
pub open spec fn sender_of(t: RawTransaction) -> Address {
    match t.from {
        Some(a) => a,
        None => zero_address(),
    }
}

/// The `u128` value of an optional field that is known to read as a hexadecimal `u128`.
pub open spec fn optional_hex_value_u128(s: Option<String>) -> Option<u128> {
    match optional_hex(s, pow2_128()) {
        Ok(Some(v)) => Some(v as u128),
        _ => None,
    }
}

/// Whether `c` holds the block position, sender and effective gas price of `t`.
pub open spec fn tx_context_from(c: CommonRpcTransactionData, t: RawTransaction) -> bool {
    &&& c.block_number == t.block_number
    &&& c.block_hash == t.block_hash
    &&& c.tx_index == t.transaction_index
    &&& c.effective_gas_price == t.effective_gas_price
    &&& c.from_address == sender_of(t)
}

/// Whether `c` holds the signed fields of an Ethereum envelope but its fee caps: hash, type
/// byte (0 to 4), nonce, recipient, input, value (as decimal text), gas price and limit,
/// and blob hashes.
pub open spec fn envelope_body_from(c: CommonRpcTransactionData, e: RawTxEnvelope) -> bool {
    match e {
        RawTxEnvelope::Legacy(g) => {
            &&& c.tx_hash == g.hash && c.tx_type == 0 && c.nonce == g.nonce
            &&& c.to_address == TransactionTo::TxKind(g.to) && c.input == Some(g.input)
            &&& optional_decimal_matches(c.value, Some(g.value))
            &&& c.gas_price == Some(g.gas_price) && c.gas_limit == g.gas_limit
            &&& c.blob_versioned_hashes@.len() == 0
        },
        RawTxEnvelope::Eip2930(g) => {
            &&& c.tx_hash == g.hash && c.tx_type == 1 && c.nonce == g.nonce
            &&& c.to_address == TransactionTo::TxKind(g.to) && c.input == Some(g.input)
            &&& optional_decimal_matches(c.value, Some(g.value))
            &&& c.gas_price == Some(g.gas_price) && c.gas_limit == g.gas_limit
            &&& c.blob_versioned_hashes@.len() == 0
        },
        RawTxEnvelope::Eip1559(x) => {
            &&& c.tx_hash == x.hash && c.tx_type == 2 && c.nonce == x.nonce
            &&& c.to_address == TransactionTo::TxKind(x.to) && c.input == Some(x.input)
            &&& optional_decimal_matches(c.value, Some(x.value))
            &&& c.gas_price is None && c.gas_limit == x.gas_limit
            &&& c.blob_versioned_hashes@.len() == 0
        },
        RawTxEnvelope::Eip4844(x) => {
            &&& c.tx_hash == x.hash && c.tx_type == 3 && c.nonce == x.nonce
            &&& c.to_address == TransactionTo::Address(x.to) && c.input == Some(x.input)
            &&& optional_decimal_matches(c.value, Some(x.value))
            &&& c.gas_price is None && c.gas_limit == x.gas_limit
            &&& c.blob_versioned_hashes == x.blob_versioned_hashes
        },
        RawTxEnvelope::Eip7702(x) => {
            &&& c.tx_hash == x.hash && c.tx_type == 4 && c.nonce == x.nonce
            &&& c.to_address == TransactionTo::Address(x.to) && c.input == Some(x.input)
            &&& optional_decimal_matches(c.value, Some(x.value))
            &&& c.gas_price is None && c.gas_limit == x.gas_limit
            &&& c.blob_versioned_hashes@.len() == 0
        },
        RawTxEnvelope::Unknown(_) => false,
    }
}

/// The fee caps (maximum fee and maximum priority fee per gas) that an Ethereum envelope
/// signs, none for the gas-price types.
pub open spec fn envelope_fees(e: RawTxEnvelope) -> (Option<u128>, Option<u128>) {
    match e {
        RawTxEnvelope::Eip1559(x) => (Some(x.max_fee_per_gas), Some(x.max_priority_fee_per_gas)),
        RawTxEnvelope::Eip4844(x) => (Some(x.max_fee_per_gas), Some(x.max_priority_fee_per_gas)),
        RawTxEnvelope::Eip7702(x) => (Some(x.max_fee_per_gas), Some(x.max_priority_fee_per_gas)),
        _ => (None, None),
    }
}

/// Whether `d` carries the blob fields of an Ethereum envelope: an EIP-4844 transaction's blob
/// fee cap and, when its sidecar came along, the sidecar's blobs, commitments and proofs;
/// nothing for the other types.
pub open spec fn envelope_blobs_from(d: EthereumRpcTransactionData, e: RawTxEnvelope) -> bool {
    match e {
        RawTxEnvelope::Eip4844(x) => {
            &&& d.max_fee_per_blob_gas == Some(x.max_fee_per_blob_gas)
            &&& match x.sidecar {
                Some(sc) => d.blobs == sc.blobs && d.commitments == sc.commitments && d.proofs == sc.proofs,
                None => d.blobs@.len() == 0 && d.commitments@.len() == 0 && d.proofs@.len() == 0,
            }
        },
        _ => {
            &&& d.max_fee_per_blob_gas is None
            &&& d.blobs@.len() == 0 && d.commitments@.len() == 0 && d.proofs@.len() == 0
        },
    }
}

/// The error that the fields of a transaction of an unknown envelope type give, if any, in
/// the order read: nonce, gas limit, recipient, gas price and the two fee caps.
pub open spec fn unknown_error(u: RawUnknownTx) -> Option<IndexerError> {
    if u.nonce is None {
        Some(IndexerError::MissingTransactionField { field: RequiredTxField::Nonce })
    } else if hex_number(u.nonce.unwrap()@, pow2_64()) is None {
        Some(IndexerError::InvalidHex)
    } else if u.gas is None {
        Some(IndexerError::MissingTransactionField { field: RequiredTxField::Gas })
    } else if hex_number(u.gas.unwrap()@, pow2_64()) is None {
        Some(IndexerError::InvalidHex)
    } else if u.to is None {
        Some(IndexerError::MissingRecipient)
    } else if u.to.unwrap() is None {
        Some(IndexerError::InvalidRecipient)
    } else if optional_hex(u.gas_price, pow2_128()) is Err || optional_hex(u.max_fee_per_gas, pow2_128()) is Err
        || optional_hex(u.max_priority_fee_per_gas, pow2_128()) is Err {
        Some(IndexerError::InvalidHex)
    } else {
        None
    }
}

/// The error that a ZKsync transaction's L1 batch number and index in the batch give, if any.
pub open spec fn batch_error(number: Option<String>, index: Option<String>) -> Option<IndexerError> {
    if optional_hex(number, pow2_64()) is Err || optional_hex(index, pow2_64()) is Err {
        Some(IndexerError::InvalidHex)
    } else {
        None
    }
}

/// Whether `c` holds the fields of a transaction of an unknown envelope type whose fields
/// parse without error.
pub open spec fn unknown_body_from(c: CommonRpcTransactionData, u: RawUnknownTx) -> bool {
    &&& c.tx_hash == u.hash && c.tx_type == u.ty
    &&& c.nonce == hex_number(u.nonce.unwrap()@, pow2_64()).unwrap()
    &&& c.gas_limit == hex_number(u.gas.unwrap()@, pow2_64()).unwrap()
    &&& c.to_address == TransactionTo::TxKind(u.to.unwrap().unwrap())
    &&& c.input == u.input
    &&& optional_decimal_matches(c.value, u.value)
    &&& c.gas_price == optional_hex_value_u128(u.gas_price)
    &&& c.max_fee_per_gas == optional_hex_value_u128(u.max_fee_per_gas)
    &&& c.max_priority_fee_per_gas == optional_hex_value_u128(u.max_priority_fee_per_gas)
    &&& c.blob_versioned_hashes@ == (match u.blob_versioned_hashes {
        Some(v) => v@,
        None => Seq::empty(),
    })
}

/// The error that parsing a transaction gives, if any. An Ethereum envelope on a ZKsync chain
/// reads its fee caps and L1 batch fields from the response; a transaction of an unknown type
/// reads its own fields and, on a ZKsync chain, its L1 batch fields.
pub open spec fn tx_error(t: RawTransaction, schema: Schema) -> Option<IndexerError> {
    match t.envelope {
        RawTxEnvelope::Unknown(u) => if unknown_error(u) is Some {
            unknown_error(u)
        } else if schema == Schema::ZKsync {
            batch_error(u.l1_batch_number, u.l1_batch_tx_index)
        } else {
            None
        },
        _ => if schema == Schema::Ethereum {
            None
        } else if optional_hex(t.max_fee_per_gas, pow2_128()) is Err || optional_hex(
            t.max_priority_fee_per_gas,
            pow2_128(),
        ) is Err {
            Some(IndexerError::InvalidHex)
        } else {
            batch_error(t.l1_batch_number, t.l1_batch_tx_index)
        },
    }
}

/// Whether parsing a transaction reaches the point where no result can be made: a
/// transaction of an unknown envelope type, whose fields read well, on an Ethereum chain.
pub open spec fn tx_panics(t: RawTransaction, schema: Schema) -> bool {
    schema == Schema::Ethereum && t.envelope is Unknown && unknown_error(t.envelope->Unknown_0) is None
}

/// Whether parsing stops at a transaction, by an error or with no result.
pub open spec fn tx_stops(t: RawTransaction, schema: Schema) -> bool {
    tx_error(t, schema) is Some || tx_panics(t, schema)
}

/// The position of the first transaction at which parsing stops (the list's length if none).
pub open spec fn first_tx_stop(txs: Seq<RawTransaction>, schema: Schema) -> int
    decreases txs.len(),
{
    if txs.len() == 0 {
        0
    } else if tx_stops(txs[0], schema) {
        0
    } else {
        1 + first_tx_stop(txs.drop_first(), schema)
    }
}

/// Whether `d` is the parsed transaction of `t` on a chain with the given schema (for a
/// transaction at which parsing does not stop).
pub open spec fn tx_data_from(d: RpcTransactionData, t: RawTransaction, schema: Schema) -> bool {
    let c = tx_common(d);
    &&& tx_context_from(c, t)
    &&& match (schema, t.envelope, d) {
        (Schema::Ethereum, e, RpcTransactionData::Ethereum(ed)) => {
            &&& envelope_body_from(c, e)
            &&& (c.max_fee_per_gas, c.max_priority_fee_per_gas) == envelope_fees(e)
            &&& envelope_blobs_from(ed, e)
        },
        (Schema::ZKsync, RawTxEnvelope::Unknown(u), RpcTransactionData::ZKsync(zd)) => {
            &&& unknown_body_from(c, u)
            &&& zd.l1_batch_number == optional_hex_value(u.l1_batch_number)
            &&& zd.l1_batch_tx_index == optional_hex_value(u.l1_batch_tx_index)
        },
        (Schema::ZKsync, e, RpcTransactionData::ZKsync(zd)) => {
            &&& envelope_body_from(c, e)
            &&& c.max_fee_per_gas == optional_hex_value_u128(t.max_fee_per_gas)
            &&& c.max_priority_fee_per_gas == optional_hex_value_u128(t.max_priority_fee_per_gas)
            &&& zd.l1_batch_number == optional_hex_value(t.l1_batch_number)
            &&& zd.l1_batch_tx_index == optional_hex_value(t.l1_batch_tx_index)
        },
        _ => false,
    }
}

/// The block position, sender and effective gas price that every parsed transaction carries.
struct TxContext {
    block_number: Option<u64>,
    block_hash: Option<B256>,
    tx_index: Option<u64>,
    effective_gas_price: Option<u128>,
    from_address: Address,
}

/// The common fields and blob fields of an Ethereum envelope.
fn ethereum_envelope_data(e: RawTxEnvelope, ctx: &TxContext) -> (d: EthereumRpcTransactionData)
    requires
        !(e is Unknown),
    ensures
        envelope_body_from(d.common, e),
        (d.common.max_fee_per_gas, d.common.max_priority_fee_per_gas) == envelope_fees(e),
        envelope_blobs_from(d, e),
        d.common.block_number == ctx.block_number,
        d.common.block_hash == ctx.block_hash,
        d.common.tx_index == ctx.tx_index,
        d.common.effective_gas_price == ctx.effective_gas_price,
        d.common.from_address == ctx.from_address,
{
    let (tx_hash, tx_type, nonce, to_address, input, value, gas_price, gas_limit, max_fee, max_prio, hashes) =
        match e {
        RawTxEnvelope::Legacy(g) => (g.hash, 0u8, g.nonce, TransactionTo::TxKind(g.to), g.input, g.value, Some(g.gas_price), g.gas_limit, None, None, Vec::new()),
        RawTxEnvelope::Eip2930(g) => (g.hash, 1u8, g.nonce, TransactionTo::TxKind(g.to), g.input, g.value, Some(g.gas_price), g.gas_limit, None, None, Vec::new()),
        RawTxEnvelope::Eip1559(x) => (x.hash, 2u8, x.nonce, TransactionTo::TxKind(x.to), x.input, x.value, None, x.gas_limit, Some(x.max_fee_per_gas), Some(x.max_priority_fee_per_gas), Vec::new()),
        RawTxEnvelope::Eip4844(x) => {
            let common = CommonRpcTransactionData {
                block_number: ctx.block_number,
                block_hash: ctx.block_hash,
                tx_hash: x.hash,
                tx_index: ctx.tx_index,
                tx_type: 3,
                nonce: x.nonce,
                from_address: ctx.from_address,
                to_address: TransactionTo::Address(x.to),
                input: Some(x.input),
                value: Some(u256_to_decimal(x.value)),
                gas_price: None,
                gas_limit: x.gas_limit,
                max_fee_per_gas: Some(x.max_fee_per_gas),
                max_priority_fee_per_gas: Some(x.max_priority_fee_per_gas),
                effective_gas_price: ctx.effective_gas_price,
                blob_versioned_hashes: x.blob_versioned_hashes,
            };
            return match x.sidecar {
                Some(sc) => EthereumRpcTransactionData {
                    common,
                    max_fee_per_blob_gas: Some(x.max_fee_per_blob_gas),
                    blobs: sc.blobs,
                    commitments: sc.commitments,
                    proofs: sc.proofs,
                },
                None => EthereumRpcTransactionData {
                    common,
                    max_fee_per_blob_gas: Some(x.max_fee_per_blob_gas),
                    blobs: Vec::new(),
                    commitments: Vec::new(),
                    proofs: Vec::new(),
                },
            };
        },
        RawTxEnvelope::Eip7702(x) => (x.hash, 4u8, x.nonce, TransactionTo::Address(x.to), x.input, x.value, None, x.gas_limit, Some(x.max_fee_per_gas), Some(x.max_priority_fee_per_gas), Vec::new()),
        RawTxEnvelope::Unknown(_) => vstd::pervasive::unreached(),
    };
    let common = CommonRpcTransactionData {
        block_number: ctx.block_number,
        block_hash: ctx.block_hash,
        tx_hash,
        tx_index: ctx.tx_index,
        tx_type,
        nonce,
        from_address: ctx.from_address,
        to_address,
        input: Some(input),
        value: Some(u256_to_decimal(value)),
        gas_price,
        gas_limit,
        max_fee_per_gas: max_fee,
        max_priority_fee_per_gas: max_prio,
        effective_gas_price: ctx.effective_gas_price,
        blob_versioned_hashes: hashes,
    };
    EthereumRpcTransactionData {
        common,
        max_fee_per_blob_gas: None,
        blobs: Vec::new(),
        commitments: Vec::new(),
        proofs: Vec::new(),
    }
}

/// Parses a transaction of an unknown envelope type (see `unknown_error`, `batch_error` and
/// `unknown_body_from`); only ZKsync chains get here.
fn parse_unknown_tx(u: RawUnknownTx, ctx: &TxContext, schema: Schema) -> (r: Result<RpcTransactionData, IndexerError>)
    requires
        unknown_error(u) is None ==> schema == Schema::ZKsync,
    ensures
        if unknown_error(u) is Some {
            r == Err::<RpcTransactionData, IndexerError>(unknown_error(u).unwrap())
        } else if batch_error(u.l1_batch_number, u.l1_batch_tx_index) is Some {
            r == Err::<RpcTransactionData, IndexerError>(batch_error(u.l1_batch_number, u.l1_batch_tx_index).unwrap())
        } else {
            r matches Ok(d) && d is ZKsync && unknown_body_from(tx_common(d), u)
                && d->ZKsync_0.l1_batch_number == optional_hex_value(u.l1_batch_number)
                && d->ZKsync_0.l1_batch_tx_index == optional_hex_value(u.l1_batch_tx_index)
                && tx_common(d).block_number == ctx.block_number
                && tx_common(d).block_hash == ctx.block_hash
                && tx_common(d).tx_index == ctx.tx_index
                && tx_common(d).effective_gas_price == ctx.effective_gas_price
                && tx_common(d).from_address == ctx.from_address
        },
{
    let nonce_text = match &u.nonce {
        Some(s) => s.clone(),
        None => return Err(IndexerError::MissingTransactionField { field: RequiredTxField::Nonce }),
    };
    let nonce = match hex_to_u64(nonce_text) {
        Ok(v) => v,
        Err(e) => return Err(e),
    };
    let gas_text = match &u.gas {
        Some(s) => s.clone(),
        None => return Err(IndexerError::MissingTransactionField { field: RequiredTxField::Gas }),
    };
    let gas_limit = match hex_to_u64(gas_text) {
        Ok(v) => v,
        Err(e) => return Err(e),
    };
    let to_address = match u.to {
        None => return Err(IndexerError::MissingRecipient),
        Some(None) => return Err(IndexerError::InvalidRecipient),
        Some(Some(kind)) => TransactionTo::TxKind(kind),
    };
    let gas_price = match optional_hex_u128(&u.gas_price) {
        Ok(v) => v,
        Err(e) => return Err(e),
    };
    let max_fee_per_gas = match optional_hex_u128(&u.max_fee_per_gas) {
        Ok(v) => v,
        Err(e) => return Err(e),
    };
    let max_priority_fee_per_gas = match optional_hex_u128(&u.max_priority_fee_per_gas) {
        Ok(v) => v,
        Err(e) => return Err(e),
    };
    let l1_batch_number = match optional_hex_u64(&u.l1_batch_number) {
        Ok(v) => v,
        Err(e) => return Err(e),
    };
    let l1_batch_tx_index = match optional_hex_u64(&u.l1_batch_tx_index) {
        Ok(v) => v,
        Err(e) => return Err(e),
    };
    let hashes = match u.blob_versioned_hashes {
        Some(v) => v,
        None => Vec::new(),
    };
    let common = CommonRpcTransactionData {
        block_number: ctx.block_number,
        block_hash: ctx.block_hash,
        tx_hash: u.hash,
        tx_index: ctx.tx_index,
        tx_type: u.ty,
        nonce,
        from_address: ctx.from_address,
        to_address,
        input: u.input,
        value: optional_u256_to_decimal(&u.value),
        gas_price,
        gas_limit,
        max_fee_per_gas,
        max_priority_fee_per_gas,
        effective_gas_price: ctx.effective_gas_price,
        blob_versioned_hashes: hashes,
    };
    Ok(RpcTransactionData::ZKsync(ZKsyncRpcTransactionData { common, l1_batch_number, l1_batch_tx_index }))
}

/// Parses one transaction of a block (see `tx_error` and `tx_data_from`).
pub fn parse_transaction(t: RawTransaction, schema: Schema) -> (r: Result<RpcTransactionData, IndexerError>)
    requires
        !tx_panics(t, schema),
    ensures
        match tx_error(t, schema) {
            Some(e) => r == Err::<RpcTransactionData, IndexerError>(e),
            None => r matches Ok(d) && tx_data_from(d, t, schema),
        },
{
    let from_address = match t.from {
        Some(a) => a,
        None => [0u8; 20],
    };
    let ctx = TxContext {
        block_number: t.block_number,
        block_hash: t.block_hash,
        tx_index: t.transaction_index,
        effective_gas_price: t.effective_gas_price,
        from_address,
    };
    let RawTransaction {
        envelope,
        max_fee_per_gas,
        max_priority_fee_per_gas,
        l1_batch_number,
        l1_batch_tx_index,
        ..
    } = t;
    match envelope {
        RawTxEnvelope::Unknown(u) => parse_unknown_tx(u, &ctx, schema),
        e => {
            let d = ethereum_envelope_data(e, &ctx);
            match schema {
                Schema::Ethereum => Ok(RpcTransactionData::Ethereum(d)),
                Schema::ZKsync => {
                    let max_fee = match optional_hex_u128(&max_fee_per_gas) {
                        Ok(v) => v,
                        Err(err) => return Err(err),
                    };
                    let max_prio = match optional_hex_u128(&max_priority_fee_per_gas) {
                        Ok(v) => v,
                        Err(err) => return Err(err),
                    };
                    let batch_number = match optional_hex_u64(&l1_batch_number) {
                        Ok(v) => v,
                        Err(err) => return Err(err),
                    };
                    let batch_index = match optional_hex_u64(&l1_batch_tx_index) {
                        Ok(v) => v,
                        Err(err) => return Err(err),
                    };
                    let mut common = d.common;
                    common.max_fee_per_gas = max_fee;
                    common.max_priority_fee_per_gas = max_prio;
                    Ok(RpcTransactionData::ZKsync(ZKsyncRpcTransactionData {
                        common,
                        l1_batch_number: batch_number,
                        l1_batch_tx_index: batch_index,
                    }))
                },
            }
        },
    }
}

/// The first stop is within the list, and parsing does stop there.
pub proof fn lemma_first_tx_stop_stops(txs: Seq<RawTransaction>, schema: Schema)
    ensures
        0 <= first_tx_stop(txs, schema) <= txs.len(),
        first_tx_stop(txs, schema) < txs.len() ==> tx_stops(txs[first_tx_stop(txs, schema)], schema),
    decreases txs.len(),
{
    if txs.len() > 0 && !tx_stops(txs[0], schema) {
        lemma_first_tx_stop_stops(txs.drop_first(), schema);
    }
}

proof fn lemma_first_tx_stop(txs: Seq<RawTransaction>, schema: Schema, i: int)
    requires
        0 <= i <= txs.len(),
        i < txs.len() ==> tx_stops(txs[i], schema),
        forall|k: int| 0 <= k < i ==> !tx_stops(#[trigger] txs[k], schema),
    ensures
        first_tx_stop(txs, schema) == i,
    decreases i,
{
    if i > 0 {
        assert(!tx_stops(txs[0], schema));
        assert forall|k: int| 0 <= k < i - 1 implies !tx_stops(#[trigger] txs.drop_first()[k], schema) by {
            assert(txs.drop_first()[k] == txs[k + 1]);
        }
        lemma_first_tx_stop(txs.drop_first(), schema, i - 1);
    }
}

/// The parsed transactions of a block, one per transaction, in order (see `tx_data_from`);
/// the error of the first transaction that has one (see `tx_error`); an error for a block
/// that holds only transaction hashes, and for an uncle block.
pub fn parse_transactions(block: RawBlock, schema: Schema) -> (r: Result<Vec<RpcTransactionData>, IndexerError>)
    requires
        block.transactions matches RawBlockTransactions::Full(txs) ==> (first_tx_stop(txs@, schema) < txs@.len()
            ==> !tx_panics(txs@[first_tx_stop(txs@, schema)], schema)),
    ensures
        match block.transactions {
            RawBlockTransactions::Hashes(_) => r == Err::<Vec<RpcTransactionData>, IndexerError>(
                IndexerError::Block(BlockError::TransactionHashesOnly),
            ),
            RawBlockTransactions::Uncle => r == Err::<Vec<RpcTransactionData>, IndexerError>(
                IndexerError::Block(BlockError::UncleBlocksNotSupported),
            ),
            RawBlockTransactions::Full(txs) => if first_tx_stop(txs@, schema) < txs@.len() {
                r == Err::<Vec<RpcTransactionData>, IndexerError>(tx_error(txs@[first_tx_stop(txs@, schema)], schema).unwrap())
            } else {
                r matches Ok(v) && v@.len() == txs@.len() && forall|i: int| 0 <= i < txs@.len()
                    ==> tx_data_from(#[trigger] v@[i], txs@[i], schema)
            },
        },
{
    let txs = match block.transactions {
        RawBlockTransactions::Full(txs) => txs,
        RawBlockTransactions::Hashes(_) => return Err(IndexerError::Block(BlockError::TransactionHashesOnly)),
        RawBlockTransactions::Uncle => return Err(IndexerError::Block(BlockError::UncleBlocksNotSupported)),
    };
    let ghost ts = txs@;
    let mut out: Vec<RpcTransactionData> = Vec::new();
    for t in it: txs.into_iter()
        invariant
            it.seq() == ts,
            block.transactions matches RawBlockTransactions::Full(v) && v@ == ts,
            out@.len() == it.index(),
            first_tx_stop(ts, schema) < ts.len() ==> !tx_panics(ts[first_tx_stop(ts, schema)], schema),
            forall|k: int| 0 <= k < it.index() ==> !tx_stops(#[trigger] ts[k], schema),
            forall|k: int| 0 <= k < it.index() ==> tx_data_from(#[trigger] out@[k], ts[k], schema),
    {
        let ghost k = it.index() as int;
        proof {
            if tx_stops(ts[k], schema) {
                lemma_first_tx_stop(ts, schema, k);
            }
        }
        let d = match parse_transaction(t, schema) {
            Ok(d) => d,
            Err(e) => {
                proof {
                    lemma_first_tx_stop(ts, schema, k);
                }
                return Err(e);
            },
        };
        out.push(d);
    }
    proof {
        lemma_first_tx_stop(ts, schema, ts.len() as int);
    }
    Ok(out)
}

/// Whether the fields of a transaction of an unknown envelope type give an error
/// (see `unknown_error`).
fn unknown_has_error(u: &RawUnknownTx) -> (r: bool)
    ensures
        r == (unknown_error(*u) is Some),
{
    let nonce_ok = match &u.nonce {
        Some(s) => hex_to_u64(s.clone()).is_ok(),
        None => false,
    };
    if !nonce_ok {
        return true;
    }
    let gas_ok = match &u.gas {
        Some(s) => hex_to_u64(s.clone()).is_ok(),
        None => false,
    };
    if !gas_ok {
        return true;
    }
    match u.to {
        Some(Some(_)) => {},
        _ => return true,
    }
    optional_hex_u128(&u.gas_price).is_err() || optional_hex_u128(&u.max_fee_per_gas).is_err()
        || optional_hex_u128(&u.max_priority_fee_per_gas).is_err()
}

/// Whether L1 batch fields give an error (see `batch_error`).
fn batch_has_error(number: &Option<String>, index: &Option<String>) -> (r: bool)
    ensures
        r == (batch_error(*number, *index) is Some),
{
    optional_hex_u64(number).is_err() || optional_hex_u64(index).is_err()
}

/// Whether parsing stops at a transaction (see `tx_stops`), and whether it stops with no
/// result (see `tx_panics`).
fn tx_stop_kind(t: &RawTransaction, schema: Schema) -> (r: (bool, bool))
    ensures
        r.0 == tx_stops(*t, schema),
        r.1 == tx_panics(*t, schema),
{
    match &t.envelope {
        RawTxEnvelope::Unknown(u) => {
            if unknown_has_error(u) {
                (true, false)
            } else {
                match schema {
                    Schema::Ethereum => (true, true),
                    Schema::ZKsync => (batch_has_error(&u.l1_batch_number, &u.l1_batch_tx_index), false),
                }
            }
        },
        _ => match schema {
            Schema::Ethereum => (false, false),
            Schema::ZKsync => {
                let fees_bad = optional_hex_u128(&t.max_fee_per_gas).is_err() || optional_hex_u128(
                    &t.max_priority_fee_per_gas,
                ).is_err();
                (fees_bad || batch_has_error(&t.l1_batch_number, &t.l1_batch_tx_index), false)
            },
        },
    }
}

/// Whether parsing a block's transactions gives a result or an error rather than reaching a
/// transaction of an unknown envelope type, whose fields read well, on an Ethereum chain
/// (the condition that `parse_transactions` requires).
pub fn transactions_parse_cleanly(block: &RawBlock, schema: Schema) -> (r: bool)
    ensures
        r == (block.transactions matches RawBlockTransactions::Full(txs) ==> (first_tx_stop(txs@, schema) < txs@.len()
            ==> !tx_panics(txs@[first_tx_stop(txs@, schema)], schema))),
{
    match &block.transactions {
        RawBlockTransactions::Full(txs) => {
            let mut i: usize = 0;
            while i < txs.len()
                invariant
                    block.transactions == RawBlockTransactions::Full(*txs),
                    i <= txs@.len(),
                    forall|k: int| 0 <= k < i ==> !tx_stops(#[trigger] txs@[k], schema),
                decreases txs@.len() - i,
            {
                let (stops, panics) = tx_stop_kind(&txs[i], schema);
                if stops {
                    proof {
                        lemma_first_tx_stop(txs@, schema, i as int);
                    }
                    return !panics;
                }
                i = i + 1;
            }
            proof {
                lemma_first_tx_stop(txs@, schema, txs@.len() as int);
            }
            true
        },
        _ => true,
    }
}

} // verus!
