use vstd::prelude::*;

verus! {

/// The concurrency limit after one adaptation round: cut to three quarters (at least 1)
/// when too many recent requests failed, to nine tenths (at least 1) when recent responses
/// were slower than the target on average, raised by a tenth but at least by one (at most
/// `max_limit`) when they took less than half the target, else kept.
pub open spec fn adapted_limit(limit: nat, max_limit: nat, high_error_rate: bool, avg_nanos: nat, target_nanos: nat) -> nat {
    if high_error_rate {
        if limit * 3 / 4 > 1 { limit * 3 / 4 } else { 1 }
    } else if avg_nanos > target_nanos {
        if limit * 9 / 10 > 1 { limit * 9 / 10 } else { 1 }
    } else if avg_nanos < target_nanos / 2 {
        let grown = if limit * 11 / 10 > limit { limit * 11 / 10 } else { limit + 1 };
        if grown < max_limit { grown } else { max_limit }
    } else {
        limit
    }
}

/// One adaptation round of the concurrency limit (see `adapted_limit`). Whether the error
/// rate is too high (above a tenth of the recent requests) is decided by the caller.
pub fn adapt_limit(limit: usize, max_limit: usize, high_error_rate: bool, avg_nanos: u128, target_nanos: u128) -> (r: usize)
    requires
        high_error_rate ==> limit * 3 <= usize::MAX,
        !high_error_rate && avg_nanos > target_nanos ==> limit * 9 <= usize::MAX,
        !high_error_rate && avg_nanos <= target_nanos && avg_nanos < target_nanos / 2 ==> limit * 11 <= usize::MAX,
    ensures
        r == adapted_limit(limit as nat, max_limit as nat, high_error_rate, avg_nanos as nat, target_nanos as nat),
        high_error_rate ==> (limit * 3 < 8 && r == 1) || (limit * 3 >= 8 && r * 4 <= limit * 3 < (r + 1) * 4),
        high_error_rate && limit >= 2 ==> r < limit,
        !high_error_rate && avg_nanos > target_nanos ==> (limit * 9 < 20 && r == 1) || (limit * 9 >= 20 && r * 10
            <= limit * 9 < (r + 1) * 10),
        !high_error_rate && avg_nanos <= target_nanos && avg_nanos >= target_nanos / 2 ==> r == limit,
        !high_error_rate && avg_nanos <= target_nanos && avg_nanos < target_nanos / 2 ==> {
            &&& r <= max_limit
            &&& limit < max_limit ==> r > limit
            &&& r < max_limit ==> (r > limit && r * 10 <= limit * 11 < (r + 1) * 10) || (r == limit + 1 && limit * 11
                < (limit + 1) * 10)
            &&& r == max_limit ==> max_limit <= limit + 1 || max_limit * 10 <= limit * 11
        },
{
    proof {
        lemma_adaptation_rule(limit as nat, max_limit as nat, high_error_rate, avg_nanos as nat, target_nanos as nat);
    }
    if high_error_rate {
        let cut = limit * 3 / 4;
        if cut > 1 { cut } else { 1 }
    } else if avg_nanos > target_nanos {
        let cut = limit * 9 / 10;
        if cut > 1 { cut } else { 1 }
    } else if avg_nanos < target_nanos / 2 {
        let raised = limit * 11 / 10;
        let grown = if raised > limit { raised } else { limit + 1 };
        if grown < max_limit { grown } else { max_limit }
    } else {
        limit
    }
}

/// How the semaphore's free permits change after the limit moved.
#[derive(Debug, Clone, Copy, PartialEq, Eq, Structural)]
pub enum PermitChange {
    /// Add this many free permits.
    Add(usize),
    /// Take this many free permits away.
    Forget(usize),
    /// Leave the free permits as they are.
    Keep,
}

/// The change that brings the permits held by running requests plus the free ones to the
/// limit `desired`: add the missing ones; or take away the surplus, as far as free permits
/// allow (a held permit cannot be taken back); or nothing.
pub open spec fn permit_change_spec(held: nat, available: nat, desired: nat) -> PermitChange {
    if held + available < desired {
        PermitChange::Add((desired - held - available) as usize)
    } else if held + available > desired {
        let surplus = (held + available - desired) as nat;
        PermitChange::Forget((if surplus < available { surplus } else { available }) as usize)
    } else {
        PermitChange::Keep
    }
}

/// The free permits after a change was applied.
pub open spec fn available_after(available: nat, change: PermitChange) -> nat {
    match change {
        PermitChange::Add(n) => available + n as nat,
        PermitChange::Forget(n) => (available - n) as nat,
        PermitChange::Keep => available,
    }
}

/// How the free permits of the semaphore change so that the permits held by running
/// requests plus the free ones come to the new limit `desired` (see `permit_change_spec`).
pub fn permit_change(held: usize, available: usize, desired: usize) -> (r: PermitChange)
    requires
        held + available <= usize::MAX,
    ensures
        r == permit_change_spec(held as nat, available as nat, desired as nat),
{
    let total = held + available;
    if total < desired {
        PermitChange::Add(desired - total)
    } else if total > desired {
        let surplus = total - desired;
        PermitChange::Forget(if surplus < available { surplus } else { available })
    } else {
        PermitChange::Keep
    }
}

/// The recent responses that the limit adapts to: their durations in nanoseconds and
/// whether each failed, oldest first, at most `window_size` of each.
#[derive(Debug)]
pub struct ResponseWindow {
    pub response_times: Vec<u64>,
    pub errors: Vec<bool>,
    pub window_size: usize,
}

/// A list with one more item at its end, and its first item dropped when it grew beyond the
/// window.
pub open spec fn windowed<T>(s: Seq<T>, x: T, window: nat) -> Seq<T> {
    if s.len() + 1 > window {
        s.push(x).drop_first()
    } else {
        s.push(x)
    }
}

/// The average of durations, rounded down; none for no durations.
pub open spec fn average(times: Seq<u64>) -> Option<nat> {
    if times.len() == 0 {
        None
    } else {
        Some(sum_times(times) / times.len())
    }
}

/// The sum of durations.
pub open spec fn sum_times(times: Seq<u64>) -> nat
    decreases times.len(),
{
    if times.len() == 0 {
        0
    } else {
        sum_times(times.drop_last()) + times.last() as nat
    }
}

/// How many of the recorded responses failed.
pub open spec fn error_count(errors: Seq<bool>) -> nat
    decreases errors.len(),
{
    if errors.len() == 0 {
        0
    } else {
        error_count(errors.drop_last()) + if errors.last() { 1nat } else { 0nat }
    }
}

proof fn lemma_sum_times_bound(times: Seq<u64>)
    ensures
        sum_times(times) <= times.len() * 0xffff_ffff_ffff_ffff,
    decreases times.len(),
{
    if times.len() > 0 {
        lemma_sum_times_bound(times.drop_last());
    }
}

impl ResponseWindow {
    /// An empty window of the given size.
    pub fn new(window_size: usize) -> (r: ResponseWindow)
        ensures
            r.response_times@.len() == 0,
            r.errors@.len() == 0,
            r.window_size == window_size,
    {
        ResponseWindow { response_times: Vec::new(), errors: Vec::new(), window_size }
    }

    /// Records one response: its duration and whether it failed, each list dropping its
    /// oldest entry when it grows beyond the window.
    pub fn record_response(&mut self, duration_nanos: u64, is_error: bool)
        ensures
            final(self).window_size == old(self).window_size,
            final(self).response_times@ == windowed(old(self).response_times@, duration_nanos, old(self).window_size as nat),
            final(self).errors@ == windowed(old(self).errors@, is_error, old(self).window_size as nat),
    {
        self.response_times.push(duration_nanos);
        if self.response_times.len() > self.window_size {
            self.response_times.remove(0);
        }
        self.errors.push(is_error);
        if self.errors.len() > self.window_size {
            self.errors.remove(0);
        }
    }

    /// The average recorded duration, rounded down to the nanosecond; none when nothing is
    /// recorded.
    pub fn average_response_nanos(&self) -> (r: Option<u128>)
        requires
            self.response_times@.len() <= u32::MAX,
        ensures
            match average(self.response_times@) {
                Some(a) => r == Some(a as u128),
                None => r is None,
            },
    {
        let n = self.response_times.len();
        if n == 0 {
            return None;
        }
        let mut total: u128 = 0;
        let mut i: usize = 0;
        while i < n
            invariant
                n == self.response_times@.len(),
                n <= u32::MAX,
                i <= n,
                total == sum_times(self.response_times@.take(i as int)),
            decreases n - i,
        {
            proof {
                let t = self.response_times@.take(i + 1);
                assert(t.drop_last() =~= self.response_times@.take(i as int));
                lemma_sum_times_bound(self.response_times@.take(i as int));
                assert(total <= i * 0xffff_ffff_ffff_ffff) by (nonlinear_arith)
                    requires
                        total <= self.response_times@.take(i as int).len() * 0xffff_ffff_ffff_ffff,
                        self.response_times@.take(i as int).len() == i,
                ;
                assert(i * 0xffff_ffff_ffff_ffff <= 0xffff_ffff * 0xffff_ffff_ffff_ffff) by (nonlinear_arith)
                    requires
                        i <= 0xffff_ffff,
                ;
            }
            total = total + self.response_times[i] as u128;
            i = i + 1;
        }
        proof {
            assert(self.response_times@.take(n as int) =~= self.response_times@);
        }
        Some(total / (n as u128))
    }

    /// How many recorded responses failed.
    pub fn failed_count(&self) -> (r: usize)
        ensures
            r == error_count(self.errors@),
    {
        let mut count: usize = 0;
        let mut i: usize = 0;
        while i < self.errors.len()
            invariant
                i <= self.errors@.len(),
                count == error_count(self.errors@.take(i as int)),
                count <= i,
            decreases self.errors@.len() - i,
        {
            proof {
                let t = self.errors@.take(i + 1);
                assert(t.drop_last() =~= self.errors@.take(i as int));
            }
            if self.errors[i] {
                count = count + 1;
            }
            i = i + 1;
        }
        proof {
            assert(self.errors@.take(self.errors@.len() as int) =~= self.errors@);
        }
        count
    }
}

/// Adaptation keeps the concurrency limit between 1 and the maximum; when responses take
/// less than half the target and not too many failed, a limit below the maximum grows.
pub proof fn lemma_adapted_limit_in_range(limit: nat, max_limit: nat, high_error_rate: bool, avg_nanos: nat, target_nanos: nat)
    requires
        1 <= limit <= max_limit,
    ensures
        1 <= adapted_limit(limit, max_limit, high_error_rate, avg_nanos, target_nanos) <= max_limit,
        !high_error_rate && avg_nanos <= target_nanos && avg_nanos < target_nanos / 2 && limit < max_limit
            ==> adapted_limit(limit, max_limit, high_error_rate, avg_nanos, target_nanos) > limit,
{
    assert(limit * 3 / 4 <= limit);
    assert(limit * 9 / 10 <= limit);
}

/// What each round does to the limit, whatever the response times when too many requests
/// failed: a high error rate cuts the limit to three quarters rounded down (at least 1), so
/// any limit of 2 or more shrinks; otherwise slow responses cut it to nine tenths rounded
/// down (at least 1), fast ones raise it by at least one up to the maximum, and others leave
/// it.
pub proof fn lemma_adaptation_rule(limit: nat, max_limit: nat, high_error_rate: bool, avg_nanos: nat, target_nanos: nat)
    ensures
        ({
            let r = adapted_limit(limit, max_limit, high_error_rate, avg_nanos, target_nanos);
            &&& high_error_rate ==> (limit * 3 < 8 && r == 1) || (limit * 3 >= 8 && r * 4 <= limit * 3 < (r + 1) * 4)
            &&& high_error_rate && limit >= 2 ==> r < limit
            &&& !high_error_rate && avg_nanos > target_nanos ==> (limit * 9 < 20 && r == 1) || (limit * 9 >= 20 && r
                * 10 <= limit * 9 < (r + 1) * 10)
            &&& !high_error_rate && avg_nanos <= target_nanos && avg_nanos < target_nanos / 2 ==> {
                &&& r <= max_limit
                &&& limit < max_limit ==> r > limit
                &&& r < max_limit ==> (r > limit && r * 10 <= limit * 11 < (r + 1) * 10) || (r == limit + 1 && limit
                    * 11 < (limit + 1) * 10)
                &&& r == max_limit ==> max_limit <= limit + 1 || max_limit * 10 <= limit * 11
            }
            &&& !high_error_rate && avg_nanos <= target_nanos && avg_nanos >= target_nanos / 2 ==> r == limit
        }),
{
    let q = limit * 3 / 4;
    assert(q * 4 <= limit * 3 < (q + 1) * 4);
    let q9 = limit * 9 / 10;
    assert(q9 * 10 <= limit * 9 < (q9 + 1) * 10);
    let q11 = limit * 11 / 10;
    assert(q11 * 10 <= limit * 11 < (q11 + 1) * 10);
}

/// What one adaptation round sees: whether too many requests failed, the average response
/// time and the target, in nanoseconds.
pub struct AdaptationRound {
    pub high_error_rate: bool,
    pub avg_nanos: nat,
    pub target_nanos: nat,
}

/// The concurrency limit after a run of adaptation rounds, oldest first.
pub open spec fn limit_after_rounds(limit: nat, max_limit: nat, rounds: Seq<AdaptationRound>) -> nat
    decreases rounds.len(),
{
    if rounds.len() == 0 {
        limit
    } else {
        let before = limit_after_rounds(limit, max_limit, rounds.drop_last());
        let last = rounds.last();
        adapted_limit(before, max_limit, last.high_error_rate, last.avg_nanos, last.target_nanos)
    }
}

/// However many adaptation rounds run, a limit that starts between 1 and the maximum stays
/// between 1 and the maximum.
pub proof fn lemma_limit_stays_in_range(limit: nat, max_limit: nat, rounds: Seq<AdaptationRound>)
    requires
        1 <= limit <= max_limit,
    ensures
        1 <= limit_after_rounds(limit, max_limit, rounds) <= max_limit,
    decreases rounds.len(),
{
    if rounds.len() > 0 {
        lemma_limit_stays_in_range(limit, max_limit, rounds.drop_last());
        let before = limit_after_rounds(limit, max_limit, rounds.drop_last());
        let last = rounds.last();
        lemma_adapted_limit_in_range(before, max_limit, last.high_error_rate, last.avg_nanos, last.target_nanos);
    }
}

/// After the permit change, the held permits plus the free ones equal the limit, unless
/// more permits are held than the limit allows; then no permit is left free.
pub proof fn lemma_permits_follow_limit(held: usize, available: usize, desired: usize)
    requires
        held + available <= usize::MAX,
    ensures
        held <= desired ==> held + available_after(available as nat, permit_change_spec(held as nat, available as nat, desired as nat)) == desired,
        held > desired ==> available_after(available as nat, permit_change_spec(held as nat, available as nat, desired as nat)) == 0,
        held + available_after(available as nat, permit_change_spec(held as nat, available as nat, desired as nat)) <= desired
            || available_after(available as nat, permit_change_spec(held as nat, available as nat, desired as nat)) == 0,
{
}

/// The window never grows beyond its size: recording a response into a window of at most
/// `window` entries leaves at most `window` entries (and keeps the newest one).
pub proof fn lemma_windowed_len<T>(s: Seq<T>, x: T, window: nat)
    requires
        s.len() <= window,
    ensures
        windowed(s, x, window).len() <= window,
        windowed(s, x, window).len() > 0 ==> windowed(s, x, window).last() == x,
{
}

} // verus!
