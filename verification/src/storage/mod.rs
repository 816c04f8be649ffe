pub mod bigquery;
pub mod schema;

use vstd::prelude::*;

verus! {

/// How many different blocks a storage worker collects before it writes a batch.
pub const BATCH_SIZE: usize = 10;

/// How long, in nanoseconds, a storage worker waits at most before it writes what it has
/// collected (five seconds).
pub const MAX_BATCH_WAIT_NANOS: u128 = 5_000_000_000;

/// How many messages each dataset's channel holds.
pub const MAX_CHANNEL_CAPACITY: usize = 1024;

/// The rows of some blocks that a storage worker writes in one insert, with the range of
/// block numbers they came from.
#[derive(Debug)]
pub struct Flush<T> {
    pub rows: Vec<T>,
    pub min_block: u64,
    pub max_block: u64,
}

/// The rows a storage worker has collected since its last write: the rows in the order they
/// arrived, the smallest and largest block number seen (`u64::MAX` and 0 before any), and
/// the different block numbers seen.
#[derive(Debug)]
pub struct WorkerBatch<T> {
    pub rows: Vec<T>,
    pub min_block: u64,
    pub max_block: u64,
    pub block_numbers: Vec<u64>,
}

/// The abstract state of a worker's batch.
pub struct BatchModel<T> {
    pub rows: Seq<T>,
    pub min_block: u64,
    pub max_block: u64,
    pub blocks: Seq<u64>,
}

/// The state of a worker right after a write (or at its start).
pub open spec fn empty_model<T>() -> BatchModel<T> {
    BatchModel { rows: Seq::empty(), min_block: u64::MAX, max_block: 0, blocks: Seq::empty() }
}

/// What a worker's batch looks like after the rows of one more block arrive, before it
/// decides whether to write: the rows appended, the range widened, the block number recorded
/// once.
pub open spec fn collect_model<T>(m: BatchModel<T>, rows: Seq<T>, block_number: u64) -> BatchModel<T> {
    BatchModel {
        rows: m.rows + rows,
        min_block: if block_number < m.min_block { block_number } else { m.min_block },
        max_block: if block_number > m.max_block { block_number } else { m.max_block },
        blocks: if m.blocks.contains(block_number) { m.blocks } else { m.blocks.push(block_number) },
    }
}

/// Whether a worker writes its batch: it has seen `BATCH_SIZE` different blocks or has waited
/// long enough, and it holds rows.
pub open spec fn should_flush<T>(m: BatchModel<T>, waited_nanos: u128) -> bool {
    (m.blocks.len() >= BATCH_SIZE || waited_nanos >= MAX_BATCH_WAIT_NANOS) && m.rows.len() > 0
}

/// How many different blocks a worker has seen once `block_number` is added to `blocks`.
pub open spec fn seen_after(blocks: Seq<u64>, block_number: u64) -> nat {
    if blocks.contains(block_number) { blocks.len() } else { blocks.len() + 1 }
}

/// A worker writes exactly when it is due: once it holds rows and has seen ten different
/// blocks since its last write, or five seconds have passed since it; then the write holds
/// every row collected, the new ones last, and the worker starts over empty. Otherwise it
/// keeps collecting.
pub proof fn lemma_flush_when_due<T>(m: BatchModel<T>, rows: Seq<T>, block_number: u64, waited_nanos: u128)
    ensures
        ({
            let (next, f) = step_model(m, rows, block_number, waited_nanos);
            &&& f is Some <==> (seen_after(m.blocks, block_number) >= 10 || waited_nanos >= 5_000_000_000)
                && m.rows.len() + rows.len() > 0
            &&& f matches Some((written, _, _)) ==> written == m.rows + rows && next.rows.len() == 0
                && next.blocks.len() == 0
            &&& f is None ==> next.rows == m.rows + rows
        }),
{
}

/// One step of a worker: the state after the rows of a block arrive, and the batch it writes
/// (rows and block range), if it writes one.
pub open spec fn step_model<T>(m: BatchModel<T>, rows: Seq<T>, block_number: u64, waited_nanos: u128) -> (
    BatchModel<T>,
    Option<(Seq<T>, u64, u64)>,
) {
    let c = collect_model(m, rows, block_number);
    if should_flush(c, waited_nanos) {
        (empty_model(), Some((c.rows, c.min_block, c.max_block)))
    } else {
        (c, None)
    }
}

/// Whether a batch state is consistent: its block numbers are different from each other
/// and all lie between its smallest and largest, which are `u64::MAX` and 0 when there are
/// none.
pub open spec fn model_wf<T>(m: BatchModel<T>) -> bool {
    &&& m.blocks.no_duplicates()
    &&& m.blocks.len() == 0 ==> m.min_block == u64::MAX && m.max_block == 0
    &&& forall|i: int| 0 <= i < m.blocks.len() ==> m.min_block <= #[trigger] m.blocks[i] <= m.max_block
    &&& m.blocks.len() > 0 ==> m.blocks.contains(m.min_block) && m.blocks.contains(m.max_block)
}

impl<T> WorkerBatch<T> {
    pub open spec fn model(&self) -> BatchModel<T> {
        BatchModel { rows: self.rows@, min_block: self.min_block, max_block: self.max_block, blocks: self.block_numbers@ }
    }

    /// An empty batch.
    pub fn new() -> (r: WorkerBatch<T>)
        ensures
            r.model() == empty_model::<T>(),
    {
        WorkerBatch { rows: Vec::new(), min_block: u64::MAX, max_block: 0, block_numbers: Vec::new() }
    }

    /// Takes in the rows of one block and `waited_nanos`, how long ago the last write (or the
    /// worker's start) was; returns the batch to write when `should_flush` says so, and then
    /// starts over empty (see `step_model`).
    pub fn receive(&mut self, rows: Vec<T>, block_number: u64, waited_nanos: u128) -> (r: Option<Flush<T>>)
        ensures
            ({
                let (m, f) = step_model(old(self).model(), rows@, block_number, waited_nanos);
                &&& final(self).model() == m
                &&& match f {
                    Some((fr, lo, hi)) => r matches Some(x) && x.rows@ == fr && x.min_block == lo && x.max_block == hi,
                    None => r is None,
                }
            }),
    {
        let mut rows = rows;
        let ghost expected = collect_model(self.model(), rows@, block_number);
        self.rows.append(&mut rows);
        if block_number < self.min_block {
            self.min_block = block_number;
        }
        if block_number > self.max_block {
            self.max_block = block_number;
        }
        if !contains_block(&self.block_numbers, block_number) {
            self.block_numbers.push(block_number);
        }
        assert(self.model() == expected);
        if (self.block_numbers.len() >= BATCH_SIZE || waited_nanos >= MAX_BATCH_WAIT_NANOS) && self.rows.len() > 0 {
            let mut taken: Vec<T> = Vec::new();
            std::mem::swap(&mut taken, &mut self.rows);
            let flush = Flush { rows: taken, min_block: self.min_block, max_block: self.max_block };
            self.min_block = u64::MAX;
            self.max_block = 0;
            self.block_numbers = Vec::new();
            assert(self.model().rows =~= Seq::<T>::empty());
            assert(self.model().blocks =~= Seq::<u64>::empty());
            Some(flush)
        } else {
            None
        }
    }

    /// What is left to write when the worker shuts down: the collected rows with their block
    /// range, if there are any rows; the batch is left empty.
    pub fn drain(&mut self) -> (r: Option<Flush<T>>)
        ensures
            final(self).model() == empty_model::<T>(),
            if old(self).rows@.len() > 0 {
                r matches Some(x) && x.rows@ == old(self).rows@ && x.min_block == old(self).min_block
                    && x.max_block == old(self).max_block
            } else {
                r is None
            },
    {
        let mut taken: Vec<T> = Vec::new();
        std::mem::swap(&mut taken, &mut self.rows);
        let r = if taken.len() > 0 {
            Some(Flush { rows: taken, min_block: self.min_block, max_block: self.max_block })
        } else {
            None
        };
        self.min_block = u64::MAX;
        self.max_block = 0;
        self.block_numbers = Vec::new();
        assert(self.model().rows =~= Seq::<T>::empty());
        assert(self.model().blocks =~= Seq::<u64>::empty());
        r
    }
}

/// Whether a block number is among those seen.
pub fn contains_block(v: &Vec<u64>, n: u64) -> (r: bool)
    ensures
        r == v@.contains(n),
{
    let mut i: usize = 0;
    while i < v.len()
        invariant
            i <= v@.len(),
            forall|k: int| 0 <= k < i ==> v@[k] != n,
        decreases v@.len() - i,
    {
        if v[i] == n {
            assert(v@[i as int] == n);
            return true;
        }
        i = i + 1;
    }
    false
}

/// Every step keeps a batch state consistent.
pub proof fn lemma_step_keeps_wf<T>(m: BatchModel<T>, rows: Seq<T>, block_number: u64, waited_nanos: u128)
    requires
        model_wf(m),
    ensures
        model_wf(step_model(m, rows, block_number, waited_nanos).0),
{
    let c = collect_model(m, rows, block_number);
    if !should_flush(c, waited_nanos) {
        if !m.blocks.contains(block_number) {
            assert forall|i: int, j: int| 0 <= i < j < c.blocks.len() implies c.blocks[i] != c.blocks[j] by {
                if j == c.blocks.len() - 1 {
                    assert(c.blocks[j] == block_number);
                    assert(m.blocks[i] == c.blocks[i]);
                }
            }
            assert(c.blocks.contains(c.min_block)) by {
                if block_number < m.min_block || m.blocks.len() == 0 {
                    assert(c.blocks[c.blocks.len() - 1] == block_number);
                } else {
                    let k = choose|k: int| 0 <= k < m.blocks.len() && m.blocks[k] == m.min_block;
                    assert(c.blocks[k] == m.min_block);
                }
            }
            assert(c.blocks.contains(c.max_block)) by {
                if block_number > m.max_block || m.blocks.len() == 0 {
                    assert(c.blocks[c.blocks.len() - 1] == block_number);
                } else {
                    let k = choose|k: int| 0 <= k < m.blocks.len() && m.blocks[k] == m.max_block;
                    assert(c.blocks[k] == m.max_block);
                }
            }
        }
    }
}

/// The rows a run of steps writes, in order, and the state it ends in, for a list of
/// arrivals (rows, block number, time since the last write).
pub open spec fn run_model<T>(m: BatchModel<T>, events: Seq<(Seq<T>, u64, u128)>) -> (BatchModel<T>, Seq<T>)
    decreases events.len(),
{
    if events.len() == 0 {
        (m, Seq::empty())
    } else {
        let (m1, written) = run_model(m, events.drop_last());
        let e = events.last();
        let (m2, f) = step_model(m1, e.0, e.1, e.2);
        match f {
            Some((rows, _, _)) => (m2, written + rows),
            None => (m2, written),
        }
    }
}

/// All rows that arrived, in order.
pub open spec fn arrived_rows<T>(events: Seq<(Seq<T>, u64, u128)>) -> Seq<T>
    decreases events.len(),
{
    if events.len() == 0 {
        Seq::empty()
    } else {
        arrived_rows(events.drop_last()) + events.last().0
    }
}

/// No row is lost, repeated or reordered: over any run of arrivals, the rows written followed
/// by the rows still collected are the rows held at the start followed by all rows that
/// arrived.
pub proof fn lemma_run_keeps_rows<T>(m: BatchModel<T>, events: Seq<(Seq<T>, u64, u128)>)
    ensures
        run_model(m, events).1 + run_model(m, events).0.rows == m.rows + arrived_rows(events),
    decreases events.len(),
{
    if events.len() > 0 {
        lemma_run_keeps_rows(m, events.drop_last());
        let (m1, written) = run_model(m, events.drop_last());
        let e = events.last();
        let c = collect_model(m1, e.0, e.1);
        assert(written + c.rows == m.rows + arrived_rows(events)) by {
            assert(written + (m1.rows + e.0) =~= (written + m1.rows) + e.0);
            assert(m.rows + arrived_rows(events) =~= (m.rows + arrived_rows(events.drop_last())) + e.0);
        }
        if should_flush(c, e.2) {
            assert((written + c.rows) + Seq::<T>::empty() =~= written + c.rows);
        }
    }
}

/// The block range of every write covers the blocks whose rows it holds: a batch that has
/// seen blocks writes the smallest and largest of them.
pub proof fn lemma_flush_range<T>(m: BatchModel<T>, rows: Seq<T>, block_number: u64, waited_nanos: u128)
    requires
        model_wf(m),
    ensures
        step_model(m, rows, block_number, waited_nanos).1 matches Some((_, lo, hi)) ==> lo <= block_number <= hi
            && forall|i: int| 0 <= i < m.blocks.len() ==> lo <= #[trigger] m.blocks[i] <= hi,
        step_model(m, rows, block_number, waited_nanos).1 matches Some((_, lo, hi)) ==> (lo == block_number
            || m.blocks.contains(lo)) && (hi == block_number || m.blocks.contains(hi)),
{
}

/// Every row that reaches a worker is written exactly once, in arrival order: the writes of
/// any run of arrivals into a fresh worker, followed by the final write at shutdown (`drain`
/// writes all rows still held), hold exactly the rows that arrived.
pub proof fn lemma_every_row_written_once<T>(events: Seq<(Seq<T>, u64, u128)>)
    ensures
        run_model(empty_model::<T>(), events).1 + run_model(empty_model::<T>(), events).0.rows == arrived_rows(events),
{
    lemma_run_keeps_rows(empty_model::<T>(), events);
    assert(empty_model::<T>().rows + arrived_rows(events) =~= arrived_rows(events));
}

/// A worker never sits on rows that it should have written: after any arrival, when it
/// still holds rows, it has seen fewer than `BATCH_SIZE` different blocks since its last write
/// and that arrival came less than `MAX_BATCH_WAIT_NANOS` after it.
pub proof fn lemma_run_holds_only_pending_rows<T>(m: BatchModel<T>, events: Seq<(Seq<T>, u64, u128)>)
    requires
        events.len() > 0,
    ensures
        run_model(m, events).0.rows.len() > 0 ==> run_model(m, events).0.blocks.len() < BATCH_SIZE
            && events.last().2 < MAX_BATCH_WAIT_NANOS,
{
}

/// The last block that each dataset's worker has written.
#[derive(Debug, Clone, Copy, PartialEq, Eq, Structural)]
pub struct WorkerProgress {
    pub blocks: u64,
    pub transactions: u64,
    pub logs: u64,
    pub traces: u64,
}

impl WorkerProgress {
    /// No block written yet.
    pub fn new() -> (r: WorkerProgress)
        ensures
            r == (WorkerProgress { blocks: 0, transactions: 0, logs: 0, traces: 0 }),
    {
        WorkerProgress { blocks: 0, transactions: 0, logs: 0, traces: 0 }
    }

    /// Whether every worker has written up to `target_block`.
    pub fn all_workers_completed(&self, target_block: u64) -> (r: bool)
        ensures
            r == (self.blocks >= target_block && self.transactions >= target_block && self.logs >= target_block
                && self.traces >= target_block),
    {
        self.blocks >= target_block && self.transactions >= target_block && self.logs >= target_block
            && self.traces >= target_block
    }

    /// Records that the blocks worker has written up to `block`.
    pub fn update_blocks_progress(&mut self, block: u64)
        ensures
            *final(self) == (WorkerProgress { blocks: block, ..*old(self) }),
    {
        self.blocks = block;
    }

    /// Records that the transactions worker has written up to `block`.
    pub fn update_transactions_progress(&mut self, block: u64)
        ensures
            *final(self) == (WorkerProgress { transactions: block, ..*old(self) }),
    {
        self.transactions = block;
    }

    /// Records that the logs worker has written up to `block`.
    pub fn update_logs_progress(&mut self, block: u64)
        ensures
            *final(self) == (WorkerProgress { logs: block, ..*old(self) }),
    {
        self.logs = block;
    }

    /// Records that the traces worker has written up to `block`.
    pub fn update_traces_progress(&mut self, block: u64)
        ensures
            *final(self) == (WorkerProgress { traces: block, ..*old(self) }),
    {
        self.traces = block;
    }
}

/// Whether every channel is drained: each has all of its capacity free.
pub fn all_channels_empty(free_capacities: [usize; 4]) -> (r: bool)
    ensures
        r == (free_capacities[0] == MAX_CHANNEL_CAPACITY && free_capacities[1] == MAX_CHANNEL_CAPACITY
            && free_capacities[2] == MAX_CHANNEL_CAPACITY && free_capacities[3] == MAX_CHANNEL_CAPACITY),
{
    free_capacities[0] == MAX_CHANNEL_CAPACITY && free_capacities[1] == MAX_CHANNEL_CAPACITY
        && free_capacities[2] == MAX_CHANNEL_CAPACITY && free_capacities[3] == MAX_CHANNEL_CAPACITY
}

} // verus!
