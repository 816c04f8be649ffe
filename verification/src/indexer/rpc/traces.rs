use vstd::prelude::*;

use crate::models::common::Schema;
use crate::models::datasets::traces::{
    trace_common, CommonRpcTraceData, EthereumRpcTraceData, RpcTraceData, ZKsyncRpcTraceData,
};
use crate::models::errors::IndexerError;
use crate::models::rpc::{RawCallFrame, RawTrace, RawTraceResult};
use crate::models::types::{limbs_value, B256};
use crate::text::{decimal, lowercase, optional_decimal_matches, to_lowercase, u256_to_decimal};

verus! {

/// A call frame with its position in the call tree: the indices of the calls that lead to it.
pub type FrameNode = (RawCallFrame, Seq<usize>);

/// The call frames of a tree in depth-first pre-order (a call before the calls it makes, those
/// in the order made), each with its position; the root's position is `address`.
pub open spec fn frame_nodes(f: RawCallFrame, address: Seq<usize>) -> Seq<FrameNode>
    decreases f, 0int,
{
    seq![(f, address)] + call_list_nodes(f.calls@, address, 0)
}

/// The nodes of the subtrees of `calls[from..]`, in order, made by a frame at `address`.
pub open spec fn call_list_nodes(calls: Seq<RawCallFrame>, address: Seq<usize>, from: int) -> Seq<FrameNode>
    decreases calls, calls.len() - from,
{
    if from < 0 || from >= calls.len() {
        Seq::empty()
    } else {
        frame_nodes(calls[from], address.push(from as usize)) + call_list_nodes(calls, address, from + 1)
    }
}

/// Whether every list of calls in a call tree holds at most `usize::MAX` calls (as every
/// `Vec` does).
pub open spec fn calls_fit(f: RawCallFrame) -> bool
    decreases f, 0int,
{
    call_list_fits(f.calls@, 0)
}

/// Whether `calls` holds at most `usize::MAX` calls and the trees of `calls[from..]` fit.
pub open spec fn call_list_fits(calls: Seq<RawCallFrame>, from: int) -> bool
    decreases calls, calls.len() - from,
{
    &&& calls.len() <= usize::MAX
    &&& (0 <= from < calls.len() ==> calls_fit(calls[from]) && call_list_fits(calls, from + 1))
}

/// Every call of a call tree gets its own position: the positions of `frame_nodes(f, a)`
/// all extend `a` and differ from each other.
pub proof fn lemma_frame_addresses_distinct(f: RawCallFrame, a: Seq<usize>)
    requires
        calls_fit(f),
    ensures
        forall|i: int| 0 <= i < frame_nodes(f, a).len() ==> (#[trigger] frame_nodes(f, a)[i]).1.len() >= a.len()
            && frame_nodes(f, a)[i].1.subrange(0, a.len() as int) == a,
        forall|i: int, j: int| 0 <= i < j < frame_nodes(f, a).len() ==> (#[trigger] frame_nodes(f, a)[i]).1
            != (#[trigger] frame_nodes(f, a)[j]).1,
    decreases f, 0int,
{
    let rest = call_list_nodes(f.calls@, a, 0);
    let all = frame_nodes(f, a);
    lemma_call_list_addresses_distinct(f.calls@, a, 0);
    assert(all == seq![(f, a)] + rest);
    assert forall|i: int| 0 <= i < all.len() implies (#[trigger] all[i]).1.len() >= a.len() && all[i].1.subrange(
        0,
        a.len() as int,
    ) == a by {
        if i == 0 {
            assert(all[0].1 == a);
            assert(a.subrange(0, a.len() as int) =~= a);
        } else {
            assert(all[i] == rest[i - 1]);
        }
    }
    assert forall|i: int, j: int| 0 <= i < j < all.len() implies (#[trigger] all[i]).1 != (#[trigger] all[j]).1 by {
        assert(all[j] == rest[j - 1]);
        if i == 0 {
            assert(all[0].1 == a);
            assert(rest[j - 1].1.len() > a.len());
        } else {
            assert(all[i] == rest[i - 1]);
        }
    }
}

/// The positions of the subtrees of `calls[from..]` made by a frame at `a` all extend `a` by
/// a call index of at least `from`, and differ from each other.
pub proof fn lemma_call_list_addresses_distinct(calls: Seq<RawCallFrame>, a: Seq<usize>, from: int)
    requires
        call_list_fits(calls, from),
        from >= 0,
    ensures
        forall|i: int| 0 <= i < call_list_nodes(calls, a, from).len() ==> (#[trigger] call_list_nodes(calls, a, from)[i]).1.len()
            > a.len() && call_list_nodes(calls, a, from)[i].1.subrange(0, a.len() as int) == a
            && call_list_nodes(calls, a, from)[i].1[a.len() as int] >= from,
        forall|i: int, j: int| 0 <= i < j < call_list_nodes(calls, a, from).len() ==> (#[trigger] call_list_nodes(
            calls,
            a,
            from,
        )[i]).1 != (#[trigger] call_list_nodes(calls, a, from)[j]).1,
    decreases calls, calls.len() - from,
{
    if from < 0 || from >= calls.len() {
    } else {
        let b = a.push(from as usize);
        let head = frame_nodes(calls[from], b);
        let tail = call_list_nodes(calls, a, from + 1);
        let all = call_list_nodes(calls, a, from);
        assert(decreases_to!(calls => calls[from]));
        lemma_frame_addresses_distinct(calls[from], b);
        lemma_call_list_addresses_distinct(calls, a, from + 1);
        assert(all == head + tail);
        assert forall|i: int| 0 <= i < all.len() implies (#[trigger] all[i]).1.len() > a.len() && all[i].1.subrange(
            0,
            a.len() as int,
        ) == a && all[i].1[a.len() as int] >= from by {
            if i < head.len() {
                assert(all[i] == head[i]);
                let x = head[i].1;
                assert(x.subrange(0, b.len() as int) == b);
                assert(x.subrange(0, a.len() as int) =~= x.subrange(0, b.len() as int).subrange(0, a.len() as int));
                assert(b.subrange(0, a.len() as int) =~= a);
                assert(x[a.len() as int] == x.subrange(0, b.len() as int)[a.len() as int]);
            } else {
                assert(all[i] == tail[i - head.len()]);
            }
        }
        assert forall|i: int, j: int| 0 <= i < j < all.len() implies (#[trigger] all[i]).1 != (#[trigger] all[j]).1 by {
            if j < head.len() {
                assert(all[i] == head[i] && all[j] == head[j]);
            } else if i >= head.len() {
                assert(all[i] == tail[i - head.len()] && all[j] == tail[j - head.len()]);
            } else {
                assert(all[i] == head[i] && all[j] == tail[j - head.len()]);
                let x = head[i].1;
                assert(x.subrange(0, b.len() as int) == b);
                assert(x[a.len() as int] == x.subrange(0, b.len() as int)[a.len() as int]);
                assert(x[a.len() as int] == from);
                assert(tail[j - head.len()].1[a.len() as int] >= from + 1);
            }
        }
    }
}

/// Whether an optional byte string holds the same bytes as another.
pub open spec fn same_optional_bytes(a: Option<Vec<u8>>, b: Option<Vec<u8>>) -> bool {
    match (a, b) {
        (Some(x), Some(y)) => x@ == y@,
        (None, None) => true,
        _ => false,
    }
}

/// Whether `t` is the trace row of call frame `f` at position `address` of the call tree of
/// transaction `tx_hash` in block `block_number`, in the layout of `schema`.
pub open spec fn trace_from_frame(
    t: RpcTraceData,
    f: RawCallFrame,
    address: Seq<usize>,
    tx_hash: Option<B256>,
    schema: Schema,
    block_number: u64,
) -> bool {
    let c = trace_common(t);
    &&& (t is Ethereum <==> schema == Schema::Ethereum)
    &&& c.block_number == block_number
    &&& c.tx_hash == tx_hash
    &&& c.trace_type@ == lowercase(f.typ@)
    &&& c.subtraces == f.calls@.len()
    &&& c.trace_address@ == address
    &&& c.from_address == f.from
    &&& c.to_address == f.to
    &&& optional_decimal_matches(c.value, f.value)
    &&& c.gas@ == decimal(limbs_value(f.gas@))
    &&& c.gas_used@ == decimal(limbs_value(f.gas_used@))
    &&& c.input@ == f.input@
    &&& same_optional_bytes(c.output, f.output)
    &&& c.error == f.error
}

/// The trace row of one call frame at position `trace_address`.
pub fn create_trace_data(
    frame: &RawCallFrame,
    tx_hash: Option<B256>,
    schema: Schema,
    block_number: u64,
    trace_address: Vec<usize>,
) -> (r: RpcTraceData)
    ensures
        trace_from_frame(r, *frame, trace_address@, tx_hash, schema, block_number),
{
    let value = match &frame.value {
        Some(v) => Some(u256_to_decimal(*v)),
        None => None,
    };
    let output = match &frame.output {
        Some(o) => Some(o.clone()),
        None => None,
    };
    let error = match &frame.error {
        Some(e) => Some(e.clone()),
        None => None,
    };
    let common = CommonRpcTraceData {
        block_number,
        tx_hash,
        trace_type: to_lowercase(frame.typ.as_str()),
        subtraces: frame.calls.len(),
        trace_address,
        from_address: frame.from,
        to_address: frame.to,
        value,
        gas: u256_to_decimal(frame.gas),
        gas_used: u256_to_decimal(frame.gas_used),
        input: frame.input.clone(),
        output,
        error,
    };
    match schema {
        Schema::Ethereum => RpcTraceData::Ethereum(EthereumRpcTraceData { common }),
        Schema::ZKsync => RpcTraceData::ZKsync(ZKsyncRpcTraceData { common }),
    }
}

/// Whether `out[start..]` holds the trace rows of `nodes`, in order, all of transaction
/// `tx_hash`.
pub open spec fn traces_from_nodes(
    out: Seq<RpcTraceData>,
    start: int,
    nodes: Seq<FrameNode>,
    tx_hash: Option<B256>,
    schema: Schema,
    block_number: u64,
) -> bool {
    &&& out.len() == start + nodes.len()
    &&& forall|k: int| 0 <= k < nodes.len() ==> trace_from_frame(
        #[trigger] out[start + k],
        nodes[k].0,
        nodes[k].1,
        tx_hash,
        schema,
        block_number,
    )
}

/// The nodes of the subtrees of `calls[..count]`, in order, made by a frame at `address`.
pub open spec fn call_prefix_nodes(calls: Seq<RawCallFrame>, address: Seq<usize>, count: int) -> Seq<FrameNode>
    decreases count,
{
    if count <= 0 {
        Seq::empty()
    } else {
        call_prefix_nodes(calls, address, count - 1) + frame_nodes(
            calls[count - 1],
            address.push((count - 1) as usize),
        )
    }
}

proof fn lemma_call_prefix_split(calls: Seq<RawCallFrame>, address: Seq<usize>, i: int)
    requires
        0 <= i <= calls.len(),
    ensures
        call_prefix_nodes(calls, address, i) + call_list_nodes(calls, address, i) == call_list_nodes(
            calls,
            address,
            0,
        ),
    decreases i,
{
    if i == 0 {
        assert(call_prefix_nodes(calls, address, 0) + call_list_nodes(calls, address, 0)
            =~= call_list_nodes(calls, address, 0));
    } else {
        lemma_call_prefix_split(calls, address, i - 1);
        let p = call_prefix_nodes(calls, address, i - 1);
        let f = frame_nodes(calls[i - 1], address.push((i - 1) as usize));
        let l = call_list_nodes(calls, address, i);
        assert(call_list_nodes(calls, address, i - 1) == f + l);
        assert((p + f) + l =~= p + (f + l));
    }
}

/// Appending the rows of `more` after the rows of `nodes` gives the rows of both, in order.
proof fn lemma_traces_append(
    out: Seq<RpcTraceData>,
    mid: Seq<RpcTraceData>,
    start: int,
    nodes: Seq<FrameNode>,
    more: Seq<FrameNode>,
    tx_hash: Option<B256>,
    schema: Schema,
    block_number: u64,
)
    requires
        0 <= start,
        traces_from_nodes(mid, start, nodes, tx_hash, schema, block_number),
        out.subrange(0, mid.len() as int) == mid,
        traces_from_nodes(out, mid.len() as int, more, tx_hash, schema, block_number),
    ensures
        traces_from_nodes(out, start, nodes + more, tx_hash, schema, block_number),
{
    assert forall|k: int| 0 <= k < (nodes + more).len() implies trace_from_frame(
        #[trigger] out[start + k],
        (nodes + more)[k].0,
        (nodes + more)[k].1,
        tx_hash,
        schema,
        block_number,
    ) by {
        if k < nodes.len() {
            assert(out[start + k] == out.subrange(0, mid.len() as int)[start + k]);
            assert(trace_from_frame(mid[start + k], nodes[k].0, nodes[k].1, tx_hash, schema, block_number));
        } else {
            let k2 = k - nodes.len();
            assert(trace_from_frame(out[mid.len() + k2], more[k2].0, more[k2].1, tx_hash, schema, block_number));
            assert(mid.len() + k2 == start + k);
        }
    }
}

/// Appends to `out` the trace rows of a call frame and of every call beneath it, in
/// depth-first pre-order, each with its position in the tree (the frame itself at `address`).
pub fn flatten_call_frames(
    frame: &RawCallFrame,
    tx_hash: Option<B256>,
    schema: Schema,
    block_number: u64,
    address: &Vec<usize>,
    out: &mut Vec<RpcTraceData>,
)
    ensures
        final(out)@.subrange(0, old(out)@.len() as int) == old(out)@,
        traces_from_nodes(final(out)@, old(out)@.len() as int, frame_nodes(*frame, address@), tx_hash, schema, block_number),
    decreases frame, 0int,
{
    let ghost start = out@.len() as int;
    let ghost before = out@;
    out.push(create_trace_data(frame, tx_hash, schema, block_number, address.clone()));
    proof {
        assert(out@.subrange(0, start) =~= before);
        assert(traces_from_nodes(out@, start, seq![(*frame, address@)], tx_hash, schema, block_number)) by {
            assert(out@[start + 0] == out@.last());
        }
        assert(seq![(*frame, address@)] + call_prefix_nodes(frame.calls@, address@, 0) =~= seq![(*frame, address@)]);
    }
    let mut i: usize = 0;
    while i < frame.calls.len()
        invariant
            0 <= i <= frame.calls@.len(),
            start == before.len(),
            out@.subrange(0, start) == before,
            traces_from_nodes(
                out@,
                start,
                seq![(*frame, address@)] + call_prefix_nodes(frame.calls@, address@, i as int),
                tx_hash,
                schema,
                block_number,
            ),
        decreases frame.calls@.len() - i,
    {
        let mut child_address = address.clone();
        child_address.push(i);
        let ghost mid = out@;
        assert(decreases_to!(*frame => frame.calls@[i as int]));
        flatten_call_frames(&frame.calls[i], tx_hash, schema, block_number, &child_address, out);
        proof {
            let head = seq![(*frame, address@)];
            let p = call_prefix_nodes(frame.calls@, address@, i as int);
            let f = frame_nodes(frame.calls@[i as int], address@.push(i));
            assert(child_address@ == address@.push(i));
            lemma_traces_append(out@, mid, start, head + p, f, tx_hash, schema, block_number);
            assert(call_prefix_nodes(frame.calls@, address@, i + 1) == p + f);
            assert((head + p) + f =~= head + (p + f));
            assert(out@.subrange(0, start) =~= mid.subrange(0, start)) by {
                assert forall|k: int| 0 <= k < start implies out@[k] == mid[k] by {
                    assert(out@.subrange(0, mid.len() as int)[k] == out@[k]);
                }
            }
        }
        i = i + 1;
    }
    proof {
        lemma_call_prefix_split(frame.calls@, address@, frame.calls@.len() as int);
        assert(call_list_nodes(frame.calls@, address@, frame.calls@.len() as int) =~= Seq::<FrameNode>::empty());
        assert(call_prefix_nodes(frame.calls@, address@, frame.calls@.len() as int)
            =~= call_list_nodes(frame.calls@, address@, 0));
    }
}


/// Whether a trace result is a successful trace from a JavaScript tracer that returned `null`.
pub open spec fn is_js_null(r: RawTraceResult) -> bool {
    r matches RawTraceResult::Success { result: RawTrace::JsNull, .. }
}

/// Whether a trace result is a successful trace from a tracer that the indexer cannot read.
pub open spec fn is_unsupported(r: RawTraceResult) -> bool {
    r matches RawTraceResult::Success { result: RawTrace::Unsupported, .. }
}

/// Whether a list of trace results holds a `null` JavaScript trace.
pub open spec fn has_js_null(results: Seq<RawTraceResult>) -> bool {
    exists|j: int| 0 <= j < results.len() && is_js_null(#[trigger] results[j])
}

/// Whether every unreadable trace in the list comes after a `null` JavaScript trace, so that
/// reading stops before it.
pub open spec fn traces_readable(results: Seq<RawTraceResult>) -> bool {
    forall|i: int|
        0 <= i < results.len() && is_unsupported(#[trigger] results[i]) ==> exists|j: int|
            0 <= j < i && is_js_null(#[trigger] results[j])
}

/// A call-tree node with the hash of the transaction it was traced for.
pub type TracedNode = (RawCallFrame, Seq<usize>, Option<B256>);

/// The nodes of one trace result: the call tree of a successful call-tracer result, nothing
/// for a failed trace.
pub open spec fn result_nodes(r: RawTraceResult) -> Seq<TracedNode> {
    match r {
        RawTraceResult::Success { result: RawTrace::CallTracer(f), tx_hash } => frame_nodes(f, Seq::empty()).map_values(
            |n: FrameNode| (n.0, n.1, tx_hash),
        ),
        _ => Seq::empty(),
    }
}

/// The nodes of a list of trace results, in order.
pub open spec fn results_nodes(results: Seq<RawTraceResult>) -> Seq<TracedNode>
    decreases results.len(),
{
    if results.len() == 0 {
        Seq::empty()
    } else {
        results_nodes(results.drop_last()) + result_nodes(results.last())
    }
}

/// Whether `out` holds the trace rows of `nodes`, in order.
pub open spec fn traces_from_traced_nodes(
    out: Seq<RpcTraceData>,
    nodes: Seq<TracedNode>,
    schema: Schema,
    block_number: u64,
) -> bool {
    &&& out.len() == nodes.len()
    &&& forall|k: int| 0 <= k < nodes.len() ==> trace_from_frame(
        #[trigger] out[k],
        nodes[k].0,
        nodes[k].1,
        nodes[k].2,
        schema,
        block_number,
    )
}

/// The trace rows of a block's trace results: for each successful call-tracer result, every
/// call of its tree in depth-first pre-order with its position in the tree; failed traces are
/// skipped. A `null` JavaScript trace ends reading with no rows at all.
pub fn parse_traces(results: Vec<RawTraceResult>, schema: Schema, block_number: u64) -> (r: Result<
    Vec<RpcTraceData>,
    IndexerError,
>)
    requires
        traces_readable(results@),
    ensures
        r is Ok,
        has_js_null(results@) ==> r.unwrap()@.len() == 0,
        !has_js_null(results@) ==> traces_from_traced_nodes(r.unwrap()@, results_nodes(results@), schema, block_number),
{
    let mut out: Vec<RpcTraceData> = Vec::new();
    let mut i: usize = 0;
    while i < results.len()
        invariant
            i <= results@.len(),
            traces_readable(results@),
            forall|j: int| 0 <= j < i ==> !is_js_null(#[trigger] results@[j]),
            traces_from_traced_nodes(out@, results_nodes(results@.take(i as int)), schema, block_number),
        decreases results@.len() - i,
    {
        let ghost mid = out@;
        let ghost prefix = results@.take(i as int);
        proof {
            assert(results@.take(i as int + 1).drop_last() =~= prefix);
            assert(results@.take(i as int + 1).last() == results@[i as int]);
        }
        match &results[i] {
            RawTraceResult::Success { result, tx_hash } => {
                match result {
                    RawTrace::CallTracer(frame) => {
                        let root: Vec<usize> = Vec::new();
                        flatten_call_frames(frame, *tx_hash, schema, block_number, &root, &mut out);
                        proof {
                            let nodes = frame_nodes(*frame, root@);
                            let tagged = nodes.map_values(|n: FrameNode| (n.0, n.1, *tx_hash));
                            assert(root@ =~= Seq::<usize>::empty());
                            assert(result_nodes(results@[i as int]) == tagged);
                            let all = results_nodes(prefix) + tagged;
                            assert(results_nodes(results@.take(i as int + 1)) == all);
                            assert forall|k: int| 0 <= k < all.len() implies trace_from_frame(
                                #[trigger] out@[k],
                                all[k].0,
                                all[k].1,
                                all[k].2,
                                schema,
                                block_number,
                            ) by {
                                if k < mid.len() {
                                    assert(out@[k] == out@.subrange(0, mid.len() as int)[k]);
                                } else {
                                    let k2 = k - mid.len();
                                    assert(trace_from_frame(
                                        out@[mid.len() + k2],
                                        nodes[k2].0,
                                        nodes[k2].1,
                                        *tx_hash,
                                        schema,
                                        block_number,
                                    ));
                                }
                            }
                        }
                    },
                    RawTrace::JsNull => {
                        return Ok(Vec::new());
                    },
                    RawTrace::Unsupported => {
                        proof {
                            assert(is_unsupported(results@[i as int]));
                        }
                        return Ok(Vec::new());
                    },
                }
            },
            RawTraceResult::Error { .. } => {
                proof {
                    assert(results_nodes(results@.take(i as int + 1)) =~= results_nodes(prefix));
                }
            },
        }
        i = i + 1;
    }
    proof {
        assert(results@.take(results@.len() as int) =~= results@);
    }
    Ok(out)
}

/// Whether every unreadable trace comes after a `null` JavaScript trace (the condition that
/// `parse_traces` requires).
pub fn trace_results_readable(results: &Vec<RawTraceResult>) -> (r: bool)
    ensures
        r == traces_readable(results@),
{
    let mut i: usize = 0;
    while i < results.len()
        invariant
            i <= results@.len(),
            forall|k: int| 0 <= k < i ==> !is_js_null(#[trigger] results@[k]),
            forall|k: int| 0 <= k < i ==> !is_unsupported(#[trigger] results@[k]),
        decreases results@.len() - i,
    {
        match &results[i] {
            RawTraceResult::Success { result: RawTrace::JsNull, .. } => {
                proof {
                    assert forall|k: int| 0 <= k < results@.len() && is_unsupported(#[trigger] results@[k]) implies exists|j: int|
                        0 <= j < k && is_js_null(#[trigger] results@[j]) by {
                        if k < i {
                        } else if k == i {
                        } else {
                            assert(is_js_null(results@[i as int]));
                        }
                    }
                }
                return true;
            },
            RawTraceResult::Success { result: RawTrace::Unsupported, .. } => {
                proof {
                    assert(is_unsupported(results@[i as int]));
                    assert forall|j: int| 0 <= j < i implies !is_js_null(#[trigger] results@[j]) by {}
                }
                return false;
            },
            _ => {},
        }
        i = i + 1;
    }
    true
}

} // verus!
