use vstd::prelude::*;

use crate::models::common::{ChainInfo, Schema};
use crate::models::datasets::blocks::{header_common, RpcHeaderData};
use crate::models::datasets::traces::{
    trace_common, CommonTransformedTraceData, EthereumTransformedTraceData, RpcTraceData,
    TransformedTraceData, ZKsyncTransformedTraceData,
};
use crate::models::datasets::transactions::{tx_common, RpcTransactionData};
use crate::models::errors::{IndexerError, KeyField};
use crate::models::types::{bytes32_eq, BlockDate, BlockTime, B256};
use crate::text::{
    append_decimal, append_prefixed_hex, decimal, lemma_decimal_digits, lemma_decimal_injective,
    lemma_decimal_nonempty, lemma_split_before_decimal, prefixed_hex,
};

verus! {

/// What the transformations look up of a block by its number: its time, date and hash.
#[derive(Debug, Clone, Copy)]
pub struct BlockInfo {
    pub number: u64,
    pub time: BlockTime,
    pub date: BlockDate,
    pub hash: B256,
}

/// The position of a transaction in its block, looked up by the transaction's hash.
#[derive(Debug, Clone, Copy)]
pub struct TxIndexEntry {
    pub hash: B256,
    pub index: Option<u64>,
}

/// The lookup entry of a header.
pub open spec fn block_entry(h: RpcHeaderData) -> BlockInfo {
    let c = header_common(h);
    BlockInfo { number: c.block_number, time: c.block_time, date: c.block_date, hash: c.block_hash }
}

/// The lookup entry of a transaction.
pub open spec fn tx_entry(t: RpcTransactionData) -> TxIndexEntry {
    let c = tx_common(t);
    TxIndexEntry { hash: c.tx_hash, index: c.tx_index }
}

/// The block with the given number in a lookup table; where several entries share the
/// number, the last one wins, as when they are collected into a map in order.
pub open spec fn find_block_spec(m: Seq<BlockInfo>, n: u64) -> Option<BlockInfo>
    decreases m.len(),
{
    if m.len() == 0 {
        None
    } else if m.last().number == n {
        Some(m.last())
    } else {
        find_block_spec(m.drop_last(), n)
    }
}

/// The block index of the transaction with the given hash; the last entry with that hash
/// wins, and a missing entry or an entry without an index gives `None`.
pub open spec fn find_tx_index_spec(m: Seq<TxIndexEntry>, h: B256) -> Option<u64>
    decreases m.len(),
{
    if m.len() == 0 {
        None
    } else if m.last().hash == h {
        m.last().index
    } else {
        find_tx_index_spec(m.drop_last(), h)
    }
}

/// The block lookup table of a list of headers: one entry per header, in order.
pub fn block_map(headers: &Vec<RpcHeaderData>) -> (r: Vec<BlockInfo>)
    ensures
        r@.len() == headers@.len(),
        forall|i: int| 0 <= i < headers@.len() ==> #[trigger] r@[i] == block_entry(headers@[i]),
{
    let mut out: Vec<BlockInfo> = Vec::new();
    let mut i: usize = 0;
    while i < headers.len()
        invariant
            i <= headers@.len(),
            out@.len() == i,
            forall|k: int| 0 <= k < i ==> #[trigger] out@[k] == block_entry(headers@[k]),
        decreases headers@.len() - i,
    {
        let c = match &headers[i] {
            RpcHeaderData::Ethereum(e) => &e.common,
            RpcHeaderData::ZKsync(z) => &z.common,
        };
        out.push(BlockInfo { number: c.block_number, time: c.block_time, date: c.block_date, hash: c.block_hash });
        i = i + 1;
    }
    out
}

/// The transaction index lookup table of a list of transactions: one entry per
/// transaction, in order.
pub fn tx_index_map(transactions: &Vec<RpcTransactionData>) -> (r: Vec<TxIndexEntry>)
    ensures
        r@.len() == transactions@.len(),
        forall|i: int| 0 <= i < transactions@.len() ==> #[trigger] r@[i] == tx_entry(transactions@[i]),
{
    let mut out: Vec<TxIndexEntry> = Vec::new();
    let mut i: usize = 0;
    while i < transactions.len()
        invariant
            i <= transactions@.len(),
            out@.len() == i,
            forall|k: int| 0 <= k < i ==> #[trigger] out@[k] == tx_entry(transactions@[k]),
        decreases transactions@.len() - i,
    {
        let c = match &transactions[i] {
            RpcTransactionData::Ethereum(e) => &e.common,
            RpcTransactionData::ZKsync(z) => &z.common,
        };
        out.push(TxIndexEntry { hash: c.tx_hash, index: c.tx_index });
        i = i + 1;
    }
    out
}

/// Looks a block up by its number (see `find_block_spec`).
pub fn find_block(m: &Vec<BlockInfo>, n: u64) -> (r: Option<BlockInfo>)
    ensures
        r == find_block_spec(m@, n),
{
    let mut i: usize = m.len();
    assert(m@.subrange(0, m@.len() as int) =~= m@);
    while i > 0
        invariant
            i <= m@.len(),
            find_block_spec(m@, n) == find_block_spec(m@.subrange(0, i as int), n),
        decreases i,
    {
        let ghost pre = m@.subrange(0, i as int);
        assert(pre.drop_last() =~= m@.subrange(0, i - 1));
        i = i - 1;
        if m[i].number == n {
            return Some(m[i]);
        }
    }
    assert(m@.subrange(0, 0) =~= Seq::<BlockInfo>::empty());
    None
}

/// Looks the block index of a transaction up by its hash (see `find_tx_index_spec`).
pub fn find_tx_index(m: &Vec<TxIndexEntry>, h: &B256) -> (r: Option<u64>)
    ensures
        r == find_tx_index_spec(m@, *h),
{
    let mut i: usize = m.len();
    assert(m@.subrange(0, m@.len() as int) =~= m@);
    while i > 0
        invariant
            i <= m@.len(),
            find_tx_index_spec(m@, *h) == find_tx_index_spec(m@.subrange(0, i as int), *h),
        decreases i,
    {
        let ghost pre = m@.subrange(0, i as int);
        assert(pre.drop_last() =~= m@.subrange(0, i - 1));
        i = i - 1;
        if bytes32_eq(&m[i].hash, h) {
            return m[i].index;
        }
    }
    assert(m@.subrange(0, 0) =~= Seq::<TxIndexEntry>::empty());
    None
}

/// The decimal numbers of `s` joined by `sep`.
pub open spec fn joined_decimals(s: Seq<usize>, sep: Seq<char>) -> Seq<char>
    decreases s.len(),
{
    if s.len() == 0 {
        Seq::empty()
    } else if s.len() == 1 {
        decimal(s[0] as nat)
    } else {
        joined_decimals(s.drop_last(), sep) + sep + decimal(s.last() as nat)
    }
}

/// Numbers joined by a separator that is not a digit can be read back: equal texts come from
/// equal lists.
pub proof fn lemma_joined_decimals_injective(s1: Seq<usize>, s2: Seq<usize>, sep: char)
    requires
        !('0' <= sep <= '9'),
        joined_decimals(s1, seq![sep]) == joined_decimals(s2, seq![sep]),
    ensures
        s1 == s2,
    decreases s1.len() + s2.len(),
{
    let j1 = joined_decimals(s1, seq![sep]);
    let j2 = joined_decimals(s2, seq![sep]);
    if s1.len() == 0 && s2.len() == 0 {
        assert(s1 =~= s2);
    } else if s1.len() == 0 || s2.len() == 0 {
        let t = if s1.len() == 0 { s2 } else { s1 };
        if t.len() == 1 {
            lemma_decimal_nonempty(t[0] as nat);
        } else {
            assert(joined_decimals(t, seq![sep]).len() > 0);
        }
    } else if s1.len() == 1 && s2.len() == 1 {
        lemma_decimal_injective(s1[0] as nat, s2[0] as nat);
        assert(s1 =~= s2);
    } else if s1.len() == 1 || s2.len() == 1 {
        let (one, many) = if s1.len() == 1 { (s1, s2) } else { (s2, s1) };
        let pre = joined_decimals(many.drop_last(), seq![sep]);
        let whole = pre + seq![sep] + decimal(many.last() as nat);
        assert(joined_decimals(many, seq![sep]) == whole);
        lemma_decimal_digits(one[0] as nat);
        assert(whole[pre.len() as int] == sep);
        assert(decimal(one[0] as nat)[pre.len() as int] == sep);
    } else {
        let p1 = joined_decimals(s1.drop_last(), seq![sep]);
        let p2 = joined_decimals(s2.drop_last(), seq![sep]);
        lemma_split_before_decimal(p1, p2, sep, s1.last() as nat, s2.last() as nat);
        lemma_joined_decimals_injective(s1.drop_last(), s2.drop_last(), sep);
        assert(s1 =~= s1.drop_last().push(s1.last()));
        assert(s2 =~= s2.drop_last().push(s2.last()));
    }
}

/// Appends the decimal numbers of `s`, joined by `sep`, to `out`.
pub fn append_joined_decimals(out: &mut String, s: &Vec<usize>, sep: &str)
    ensures
        final(out)@ == old(out)@ + joined_decimals(s@, sep@),
{
    let ghost start = out@;
    let mut i: usize = 0;
    while i < s.len()
        invariant
            i <= s@.len(),
            out@ == start + joined_decimals(s@.subrange(0, i as int), sep@),
        decreases s@.len() - i,
    {
        let ghost next = s@.subrange(0, i + 1);
        assert(next.drop_last() =~= s@.subrange(0, i as int));
        if i > 0 {
            out.append(sep);
        }
        let x: u64 = s[i] as u64;
        append_decimal(out, x);
        proof {
            if i == 0 {
                assert(s@.subrange(0, 0) =~= Seq::<usize>::empty());
            }
        }
        i = i + 1;
    }
    assert(s@.subrange(0, s@.len() as int) =~= s@);
}

/// The primary key of a trace row: `trace_<chain ID>_<transaction hash>_<trace type>`, and
/// `_` with the trace address's positions joined by `_` when the trace is not the top call.
pub open spec fn trace_id(chain_id: u64, tx_hash: B256, trace_type: Seq<char>, address: Seq<usize>) -> Seq<char> {
    let head = "trace_"@ + decimal(chain_id as nat) + "_"@ + prefixed_hex(tx_hash@) + "_"@ + trace_type;
    if address.len() == 0 {
        head
    } else {
        head + "_"@ + joined_decimals(address, "_"@)
    }
}

/// The primary key of a trace row (see `trace_id`).
pub fn make_trace_id(chain_id: u64, tx_hash: &B256, trace_type: &str, address: &Vec<usize>) -> (r: String)
    ensures
        r@ == trace_id(chain_id, *tx_hash, trace_type@, address@),
{
    let mut s = String::new();
    s.append("trace_");
    append_decimal(&mut s, chain_id);
    s.append("_");
    append_prefixed_hex(&mut s, tx_hash.as_slice());
    s.append("_");
    s.append(trace_type);
    if address.len() > 0 {
        s.append("_");
        append_joined_decimals(&mut s, address, "_");
    }
    s
}

/// The Unix epoch, which a trace row of a block that the lookup table lacks carries.
pub open spec fn epoch_time() -> BlockTime {
    BlockTime { secs: 0 }
}

pub open spec fn epoch_date() -> BlockDate {
    BlockDate { days: 0 }
}

/// The all-zero hash.
pub open spec fn zero_hash() -> B256 {
    vstd::array::spec_array_fill_for_copy_type::<u8, 32>(0u8)
}

/// Whether `row` is the trace row of trace `t` for the given chain, with its block's time,
/// date and hash from `blocks` (the epoch and the zero hash when the block is missing) and its
/// transaction's index from `txs`.
pub open spec fn trace_row_from(
    row: TransformedTraceData,
    t: RpcTraceData,
    chain: ChainInfo,
    blocks: Seq<BlockInfo>,
    txs: Seq<TxIndexEntry>,
) -> bool {
    let c = trace_common(t);
    let rc = match row {
        TransformedTraceData::Ethereum(e) => e.common,
        TransformedTraceData::ZKsync(z) => z.common,
    };
    let b = find_block_spec(blocks, c.block_number);
    &&& (row is Ethereum <==> chain.schema == Schema::Ethereum)
    &&& c.tx_hash is Some
    &&& rc.id@ == trace_id(chain.id, c.tx_hash.unwrap(), c.trace_type@, c.trace_address@)
    &&& rc.chain_id == chain.id
    &&& rc.block_time == (match b { Some(x) => x.time, None => epoch_time() })
    &&& rc.block_date == (match b { Some(x) => x.date, None => epoch_date() })
    &&& rc.block_hash == (match b { Some(x) => x.hash, None => zero_hash() })
    &&& rc.block_number == c.block_number
    &&& rc.tx_hash == c.tx_hash
    &&& rc.tx_index == find_tx_index_spec(txs, c.tx_hash.unwrap())
    &&& rc.trace_type == c.trace_type
    &&& rc.subtraces == c.subtraces
    &&& rc.trace_address == c.trace_address
    &&& rc.from_address == c.from_address
    &&& rc.to_address == c.to_address
    &&& rc.value == c.value
    &&& rc.gas == c.gas
    &&& rc.gas_used == c.gas_used
    &&& rc.input == c.input
    &&& rc.output == c.output
    &&& rc.error == c.error
}

/// The position of the first trace without a transaction hash (the list's length if none).
pub open spec fn first_hashless_trace(traces: Seq<RpcTraceData>) -> int
    decreases traces.len(),
{
    if traces.len() == 0 {
        0
    } else if trace_common(traces[0]).tx_hash is None {
        0
    } else {
        1 + first_hashless_trace(traces.drop_first())
    }
}

proof fn lemma_first_hashless(traces: Seq<RpcTraceData>, i: int)
    requires
        0 <= i < traces.len(),
        trace_common(traces[i]).tx_hash is None,
        forall|k: int| 0 <= k < i ==> (#[trigger] trace_common(traces[k])).tx_hash is Some,
    ensures
        first_hashless_trace(traces) == i,
    decreases i,
{
    if i > 0 {
        assert(trace_common(traces[0]).tx_hash is Some);
        lemma_first_hashless(traces.drop_first(), i - 1);
    }
}

/// The trace rows of a list of traces, one per trace, in order (see `trace_row_from`);
/// a `MissingKeyField` error when some trace lacks its transaction hash.
pub fn transform_traces(
    traces: Vec<RpcTraceData>,
    chain_info: &ChainInfo,
    block_map: &Vec<BlockInfo>,
    tx_index_map: &Vec<TxIndexEntry>,
) -> (r: Result<Vec<TransformedTraceData>, IndexerError>)
    ensures
        (forall|i: int| 0 <= i < traces@.len() ==> (#[trigger] trace_common(traces@[i])).tx_hash is Some)
            <==> r is Ok,
        r matches Ok(v) ==> v@.len() == traces@.len() && forall|i: int| 0 <= i < traces@.len()
            ==> trace_row_from(#[trigger] v@[i], traces@[i], *chain_info, block_map@, tx_index_map@),
        r matches Err(e) ==> e == (IndexerError::MissingKeyField { field: KeyField::TxHash })
            && first_hashless_trace(traces@) < traces@.len(),
{
    let ghost ts = traces@;
    let mut out: Vec<TransformedTraceData> = Vec::new();
    for trace in it: traces.into_iter()
        invariant
            it.seq() == ts,
            out@.len() == it.index(),
            forall|k: int| 0 <= k < it.index() ==> trace_row_from(#[trigger] out@[k], ts[k], *chain_info, block_map@, tx_index_map@),
    {
        let c = match trace {
            RpcTraceData::Ethereum(e) => e.common,
            RpcTraceData::ZKsync(z) => z.common,
        };
        proof {
            assert forall|k: int| 0 <= k < it.index() implies (#[trigger] trace_common(ts[k])).tx_hash is Some by {
                assert(trace_row_from(out@[k], ts[k], *chain_info, block_map@, tx_index_map@));
            }
        }
        let tx_hash = match c.tx_hash {
            Some(h) => h,
            None => {
                proof {
                    lemma_first_hashless(ts, it.index() as int);
                }
                return Err(IndexerError::MissingKeyField { field: KeyField::TxHash });
            },
        };
        let id = make_trace_id(chain_info.id, &tx_hash, c.trace_type.as_str(), &c.trace_address);
        let block = find_block(block_map, c.block_number);
        let (block_time, block_date, block_hash) = match block {
            Some(b) => (b.time, b.date, b.hash),
            None => {
                let z: B256 = [0u8; 32];
                (BlockTime { secs: 0 }, BlockDate { days: 0 }, z)
            },
        };
        let tx_index = find_tx_index(tx_index_map, &tx_hash);
        let common = CommonTransformedTraceData {
            id,
            chain_id: chain_info.id,
            block_time,
            block_date,
            block_number: c.block_number,
            block_hash,
            tx_hash: c.tx_hash,
            tx_index,
            trace_type: c.trace_type,
            subtraces: c.subtraces,
            trace_address: c.trace_address,
            from_address: c.from_address,
            to_address: c.to_address,
            value: c.value,
            gas: c.gas,
            gas_used: c.gas_used,
            input: c.input,
            output: c.output,
            error: c.error,
        };
        let row = match chain_info.schema {
            Schema::Ethereum => TransformedTraceData::Ethereum(EthereumTransformedTraceData { common }),
            Schema::ZKsync => TransformedTraceData::ZKsync(ZKsyncTransformedTraceData { common }),
        };
        out.push(row);
    }
    proof {
        assert forall|i: int| 0 <= i < ts.len() implies (#[trigger] trace_common(ts[i])).tx_hash is Some by {
            assert(trace_row_from(out@[i], ts[i], *chain_info, block_map@, tx_index_map@));
        }
    }
    Ok(out)
}

} // verus!
