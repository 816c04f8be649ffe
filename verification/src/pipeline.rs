use vstd::prelude::*;

verus! {

/// How long the indexer sleeps when it is too close to the chain tip or the channels are
/// full, in milliseconds.
pub const SLEEP_DURATION_MS: u64 = 1_000;

/// How many blocks are processed at once when the configuration does not say.
pub const DEFAULT_MAX_CONCURRENT_BLOCKS: u64 = 10;

/// The block to start from: the one after the last stored block (or the configured start
/// block, if that is later) when storage holds blocks; else the configured start block, or 0.
pub open spec fn start_block_spec(last_processed_block: u64, start_block: Option<u64>) -> int {
    if last_processed_block > 0 {
        let next = last_processed_block + 1;
        match start_block {
            Some(s) => if next > s { next } else { s as int },
            None => next,
        }
    } else {
        match start_block {
            Some(s) => s as int,
            None => 0,
        }
    }
}

/// The block to start from (see `start_block_spec`).
pub fn start_block_number(last_processed_block: u64, start_block: Option<u64>) -> (r: u64)
    requires
        last_processed_block < u64::MAX,
    ensures
        r == start_block_spec(last_processed_block, start_block),
{
    if last_processed_block > 0 {
        let next = last_processed_block + 1;
        match start_block {
            Some(s) => if next > s { next } else { s },
            None => next,
        }
    } else {
        match start_block {
            Some(s) => s,
            None => 0,
        }
    }
}

/// Whether the indexer is past the configured end block (nothing is left to process).
pub fn past_end_block(block_number: u64, end_block: Option<u64>) -> (r: bool)
    ensures
        r == (end_block matches Some(e) && block_number > e),
{
    match end_block {
        Some(e) => block_number > e,
        None => false,
    }
}

/// Whether to ask for the chain tip again: the next block is within twice the tip buffer of
/// the last known tip.
pub fn should_refresh_tip(block_number: u64, last_known_latest_block: u64, chain_tip_buffer: u64) -> (r: bool)
    requires
        chain_tip_buffer * 2 <= last_known_latest_block,
    ensures
        r == (block_number > last_known_latest_block - chain_tip_buffer * 2),
{
    block_number > last_known_latest_block - chain_tip_buffer * 2
}

/// Whether the next block is too close to the chain tip to be processed yet: within the tip
/// buffer of the latest block.
pub fn too_close_to_tip(block_number: u64, last_known_latest_block: u64, chain_tip_buffer: u64) -> (r: bool)
    requires
        chain_tip_buffer <= last_known_latest_block,
    ensures
        r == (block_number > last_known_latest_block - chain_tip_buffer),
{
    block_number > last_known_latest_block - chain_tip_buffer
}

/// The last block of the next group processed at once: `max_concurrent_blocks` blocks from
/// `block_number` on, but not beyond the end block.
pub fn batch_end(block_number: u64, max_concurrent_blocks: u64, end_block: Option<u64>) -> (r: u64)
    requires
        max_concurrent_blocks >= 1,
        block_number + max_concurrent_blocks <= u64::MAX,
    ensures
        r == match end_block {
            Some(e) => if block_number + max_concurrent_blocks - 1 < e { block_number + max_concurrent_blocks - 1 } else { e as int },
            None => block_number + max_concurrent_blocks - 1,
        },
{
    let last = block_number + max_concurrent_blocks - 1;
    match end_block {
        Some(e) => if last < e { last } else { e },
        None => last,
    }
}

/// The block numbers from `first` to `last`, both included, in order.
pub fn block_range(first: u64, last: u64) -> (r: Vec<u64>)
    requires
        last < u64::MAX,
        last - first < usize::MAX,
    ensures
        r@.len() == if first <= last { last - first + 1 } else { 0 },
        forall|i: int| 0 <= i < r@.len() ==> r@[i] == first + i,
{
    let mut out: Vec<u64> = Vec::new();
    if first > last {
        return out;
    }
    let mut n = first;
    while n <= last
        invariant
            first <= n <= last + 1,
            last < u64::MAX,
            last - first < usize::MAX,
            out@.len() == n - first,
            forall|i: int| 0 <= i < out@.len() ==> out@[i] == first + i,
        decreases last + 1 - n,
    {
        out.push(n);
        n = n + 1;
    }
    out
}

/// The lag of the chain tip behind a processed block, as the metrics record it.
pub fn chain_tip_lag(last_known_latest_block: u64, block_number: u64) -> (r: u64)
    requires
        block_number <= last_known_latest_block,
    ensures
        r == last_known_latest_block - block_number,
{
    last_known_latest_block - block_number
}

/// The indexer never starts before the configured start block, and, when storage holds
/// blocks, always after the last stored one.
pub proof fn lemma_start_block_respects_config(last_processed_block: u64, start_block: Option<u64>)
    ensures
        start_block matches Some(s) ==> start_block_spec(last_processed_block, start_block) >= s,
        last_processed_block > 0 ==> start_block_spec(last_processed_block, start_block) > last_processed_block,
{
}

/// What the main loop carries from one step to the next: the next block to process and the
/// latest block that the chain reported.
#[derive(Debug, Clone, Copy, PartialEq, Eq, Structural)]
pub struct LoopState {
    pub block_number: u64,
    pub last_known_latest_block: u64,
}

/// The settings that the main loop's decisions follow.
#[derive(Debug, Clone, Copy, PartialEq, Eq, Structural)]
pub struct LoopConfig {
    pub end_block: Option<u64>,
    pub chain_tip_buffer: u64,
    pub max_concurrent_blocks: u64,
}

/// What happened before a step of the main loop.
#[derive(Debug, Clone, Copy, PartialEq, Eq, Structural)]
pub enum LoopEvent {
    /// A new round begins; whether a shutdown signal has arrived by then.
    RoundStarted { shutdown_requested: bool },
    /// The chain tip was fetched, as the previous step asked.
    TipFetched(u64),
}

/// What the main loop does next.
#[derive(Debug, Clone, Copy, PartialEq, Eq, Structural)]
pub enum LoopAction {
    /// Shut the storage workers down at once, without waiting for any block.
    Shutdown,
    /// Every block up to the end block was handed on: shut the workers down once they have
    /// stored up to it.
    Finish(u64),
    /// Ask for the chain tip and report it with `TipFetched`.
    FetchTip,
    /// Too close to the chain tip: sleep, then start a new round.
    Sleep,
    /// Process the blocks from `first` to `last`, both included, then start a new round.
    Process { first: u64, last: u64 },
}

/// The last block of the group that starts at `first` (see `batch_end`).
pub open spec fn batch_last(first: u64, c: LoopConfig) -> int {
    let last = first + c.max_concurrent_blocks - 1;
    match c.end_block {
        Some(e) => if last < e { last } else { e as int },
        None => last,
    }
}

/// The decision once the chain tip is known: sleep while the next block is within the tip
/// buffer of the tip, else process the next group and move past it.
pub open spec fn tip_step(s: LoopState, c: LoopConfig) -> (LoopState, LoopAction) {
    if s.block_number > s.last_known_latest_block - c.chain_tip_buffer {
        (s, LoopAction::Sleep)
    } else {
        let last = batch_last(s.block_number, c);
        (
            LoopState { block_number: (last + 1) as u64, last_known_latest_block: s.last_known_latest_block },
            LoopAction::Process { first: s.block_number, last: last as u64 },
        )
    }
}

/// One step of the main loop. At the start of a round: stop on a shutdown signal; finish
/// once past the end block; ask for the tip when the next block is within twice the tip
/// buffer of the last known tip; else decide with the known tip. Once a fetched tip comes
/// in, it replaces the known one and the decision is made with it.
pub open spec fn loop_step_spec(s: LoopState, c: LoopConfig, ev: LoopEvent) -> (LoopState, LoopAction) {
    match ev {
        LoopEvent::RoundStarted { shutdown_requested } => {
            if shutdown_requested {
                (s, LoopAction::Shutdown)
            } else if c.end_block matches Some(e) && s.block_number > e {
                (s, LoopAction::Finish(c.end_block.unwrap()))
            } else if s.block_number > s.last_known_latest_block - c.chain_tip_buffer * 2 {
                (s, LoopAction::FetchTip)
            } else {
                tip_step(s, c)
            }
        },
        LoopEvent::TipFetched(n) => tip_step(LoopState { block_number: s.block_number, last_known_latest_block: n }, c),
    }
}

/// The decision with a known tip does not overflow: the buffer is below the tip, and a
/// group to process has a last block below `u64::MAX`.
pub open spec fn tip_step_defined(s: LoopState, c: LoopConfig) -> bool {
    &&& c.chain_tip_buffer <= s.last_known_latest_block
    &&& s.block_number <= s.last_known_latest_block - c.chain_tip_buffer ==> {
        &&& c.max_concurrent_blocks >= 1
        &&& s.block_number + c.max_concurrent_blocks <= u64::MAX
    }
}

/// The step does not overflow where the loop computes with the tip and the group size, and
/// a fetched tip comes in only as the loop asked for it: in a round that has not finished.
pub open spec fn loop_step_defined(s: LoopState, c: LoopConfig, ev: LoopEvent) -> bool {
    match ev {
        LoopEvent::RoundStarted { shutdown_requested } => {
            ||| shutdown_requested
            ||| c.end_block matches Some(e) && s.block_number > e
            ||| c.chain_tip_buffer * 2 <= s.last_known_latest_block && (s.block_number
                > s.last_known_latest_block - c.chain_tip_buffer * 2 || tip_step_defined(s, c))
        },
        LoopEvent::TipFetched(n) => {
            &&& !(c.end_block matches Some(e) && s.block_number > e)
            &&& tip_step_defined(LoopState { block_number: s.block_number, last_known_latest_block: n }, c)
        },
    }
}

fn tip_decision(s: LoopState, c: LoopConfig) -> (r: (LoopState, LoopAction))
    requires
        tip_step_defined(s, c),
    ensures
        r == tip_step(s, c),
{
    if too_close_to_tip(s.block_number, s.last_known_latest_block, c.chain_tip_buffer) {
        (s, LoopAction::Sleep)
    } else {
        let last = batch_end(s.block_number, c.max_concurrent_blocks, c.end_block);
        (
            LoopState { block_number: last + 1, last_known_latest_block: s.last_known_latest_block },
            LoopAction::Process { first: s.block_number, last },
        )
    }
}

/// One step of the main loop (see `loop_step_spec`): the state after it and what to do.
pub fn loop_step(s: LoopState, c: LoopConfig, ev: LoopEvent) -> (r: (LoopState, LoopAction))
    requires
        loop_step_defined(s, c, ev),
    ensures
        r == loop_step_spec(s, c, ev),
{
    match ev {
        LoopEvent::RoundStarted { shutdown_requested } => {
            if shutdown_requested {
                (s, LoopAction::Shutdown)
            } else if past_end_block(s.block_number, c.end_block) {
                match c.end_block {
                    Some(e) => (s, LoopAction::Finish(e)),
                    None => (s, LoopAction::Shutdown),
                }
            } else if should_refresh_tip(s.block_number, s.last_known_latest_block, c.chain_tip_buffer) {
                (s, LoopAction::FetchTip)
            } else {
                tip_decision(s, c)
            }
        },
        LoopEvent::TipFetched(n) => tip_decision(LoopState { block_number: s.block_number, last_known_latest_block: n }, c),
    }
}

/// The blocks that an action has processed, in order.
pub open spec fn action_blocks(a: LoopAction) -> Seq<u64> {
    match a {
        LoopAction::Process { first, last } => Seq::new((last - first + 1) as nat, |i: int| (first + i) as u64),
        _ => Seq::empty(),
    }
}

/// The state after a run of steps, and the blocks that the run processed, in order.
pub open spec fn run_loop(s: LoopState, c: LoopConfig, evs: Seq<LoopEvent>) -> (LoopState, Seq<u64>)
    decreases evs.len(),
{
    if evs.len() == 0 {
        (s, Seq::empty())
    } else {
        let (mid, blocks) = run_loop(s, c, evs.drop_last());
        let (next, a) = loop_step_spec(mid, c, evs.last());
        (next, blocks + action_blocks(a))
    }
}

/// Whether no step of the run overflows.
pub open spec fn run_defined(s: LoopState, c: LoopConfig, evs: Seq<LoopEvent>) -> bool
    decreases evs.len(),
{
    if evs.len() == 0 {
        true
    } else {
        run_defined(s, c, evs.drop_last()) && loop_step_defined(run_loop(s, c, evs.drop_last()).0, c, evs.last())
    }
}

/// A step that processes a group takes the next block first, never goes past the end block,
/// starts at least the tip buffer behind the tip it knows, and moves on to the block after
/// the group; any other step keeps the next block.
pub proof fn lemma_loop_step_moves_on(s: LoopState, c: LoopConfig, ev: LoopEvent)
    requires
        loop_step_defined(s, c, ev),
    ensures
        ({
            let (next, a) = loop_step_spec(s, c, ev);
            match a {
                LoopAction::Process { first, last } => {
                    &&& first == s.block_number
                    &&& first <= last
                    &&& next.block_number == last + 1
                    &&& (c.end_block matches Some(e) ==> last <= e)
                    &&& first + c.chain_tip_buffer <= next.last_known_latest_block
                },
                _ => next.block_number == s.block_number,
            }
        }),
{
}

/// Over any run of the main loop, the processed blocks are exactly those from the first
/// next block up to the block before the final next block, each once and in order: no
/// block is skipped or processed twice.
pub proof fn lemma_run_processes_each_block_once(s: LoopState, c: LoopConfig, evs: Seq<LoopEvent>)
    requires
        run_defined(s, c, evs),
    ensures
        s.block_number <= run_loop(s, c, evs).0.block_number,
        run_loop(s, c, evs).1 =~= Seq::new(
            (run_loop(s, c, evs).0.block_number - s.block_number) as nat,
            |i: int| (s.block_number + i) as u64,
        ),
    decreases evs.len(),
{
    if evs.len() > 0 {
        lemma_run_processes_each_block_once(s, c, evs.drop_last());
        let (mid, blocks) = run_loop(s, c, evs.drop_last());
        lemma_loop_step_moves_on(mid, c, evs.last());
    }
}

/// A run never processes a block past the end block.
pub proof fn lemma_run_stays_within_end(s: LoopState, c: LoopConfig, evs: Seq<LoopEvent>, e: u64)
    requires
        run_defined(s, c, evs),
        c.end_block == Some(e),
        s.block_number <= e + 1,
    ensures
        run_loop(s, c, evs).0.block_number <= e + 1,
        forall|i: int| 0 <= i < run_loop(s, c, evs).1.len() ==> #[trigger] run_loop(s, c, evs).1[i] <= e,
    decreases evs.len(),
{
    lemma_run_processes_each_block_once(s, c, evs);
    if evs.len() > 0 {
        lemma_run_stays_within_end(s, c, evs.drop_last(), e);
        let (mid, blocks) = run_loop(s, c, evs.drop_last());
        lemma_loop_step_moves_on(mid, c, evs.last());
    }
}

} // verus!
