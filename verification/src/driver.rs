//! The verified core of the benchmark driver: work division and a model of
//! the counter-increment protocol.

use crate::Counter;
use crate::Large;
use crate::Small;
use vstd::prelude::*;

verus! {

/// The total amount of counter increments one benchmark iteration performs,
/// divided across the worker threads.
pub const AMOUNT_OF_WORK: usize = 16000;

/// The per-thread share of `total_work`: integer division, any remainder is
/// dropped.
pub open spec fn spec_per_thread(total_work: usize, num_threads: usize) -> int {
    total_work as int / num_threads as int
}

/// The counter value a completed run must reach: the per-thread share taken
/// by every one of the `num_threads` workers.  Equals `total_work` exactly
/// when `total_work` is divisible by `num_threads`.
pub open spec fn spec_expected_total(total_work: usize, num_threads: usize) -> int {
    spec_per_thread(total_work, num_threads) * (num_threads as int)
}

/// Computes each worker thread's share of the total work.
pub fn per_thread_work(total_work: usize, num_threads: usize) -> (r: usize)
    requires
        1 <= num_threads,
    ensures
        r as int == spec_per_thread(total_work, num_threads),
{
    total_work / num_threads
}

/// The expected total never exceeds the nominal total, and matches it
/// exactly when the work divides evenly: the truncation policy in one
/// statement.
pub proof fn lemma_expected_total_bounds(total_work: usize, num_threads: usize)
    requires
        1 <= num_threads,
    ensures
        0 <= spec_expected_total(total_work, num_threads) <= total_work,
        total_work as int % num_threads as int == 0 ==> spec_expected_total(
            total_work,
            num_threads,
        ) == total_work,
{
    let t = total_work as int;
    let n = num_threads as int;
    vstd::arithmetic::div_mod::lemma_remainder(t, n);
    vstd::arithmetic::div_mod::lemma_fundamental_div_mod(t, n);
    vstd::arithmetic::div_mod::lemma_div_basics_4(t, n);
    assert(n * (t / n) == (t / n) * n) by (nonlinear_arith);
    assert((t / n) * n >= 0) by (nonlinear_arith)
        requires
            t / n >= 0 && n >= 1,
    ;
}

/// With a single worker thread nothing is truncated: the expected total is
/// the whole of the requested work.
pub proof fn lemma_single_thread_total(total_work: usize)
    ensures
        spec_expected_total(total_work, 1) == total_work,
{
    vstd::arithmetic::div_mod::lemma_div_basics(total_work as int);
}

/// Computes the counter value a completed run must reach: each of the
/// `num_threads` workers performs its whole share.  When the total work is
/// not evenly divisible, the remainder is dropped from the expectation.
pub fn expected_total(total_work: usize, num_threads: usize) -> (r: usize)
    requires
        1 <= num_threads,
    ensures
        r as int == spec_expected_total(total_work, num_threads),
        r <= total_work,
        total_work as int % num_threads as int == 0 ==> r == total_work,
{
    proof {
        lemma_expected_total_bounds(total_work, num_threads);
    }
    let per = total_work / num_threads;
    per * num_threads
}

/// The sum of a sequence of per-thread work counts.
pub open spec fn sum_of(s: Seq<usize>) -> int
    decreases s.len(),
{
    if s.len() == 0 {
        0
    } else {
        sum_of(s.drop_last()) + s.last()
    }
}

pub proof fn lemma_sum_nonneg(s: Seq<usize>)
    ensures
        sum_of(s) >= 0,
    decreases s.len(),
{
    if s.len() > 0 {
        lemma_sum_nonneg(s.drop_last());
    }
}

pub proof fn lemma_sum_push(s: Seq<usize>, v: usize)
    ensures
        sum_of(s.push(v)) == sum_of(s) + v,
{
    assert(s.push(v).drop_last() =~= s);
}

pub proof fn lemma_sum_all_zero(s: Seq<usize>)
    requires
        forall|i: int| 0 <= i < s.len() ==> s[i] == 0,
    ensures
        sum_of(s) == 0,
    decreases s.len(),
{
    if s.len() > 0 {
        lemma_sum_all_zero(s.drop_last());
    }
}

/// Replacing one element changes the sum by the difference of the elements.
pub proof fn lemma_sum_update(s: Seq<usize>, i: int, v: usize)
    requires
        0 <= i < s.len(),
    ensures
        sum_of(s.update(i, v)) == sum_of(s) - s[i] + v,
    decreases s.len(),
{
    let u = s.update(i, v);
    if i == s.len() - 1 {
        assert(u.drop_last() =~= s.drop_last());
    } else {
        assert(u.drop_last() =~= s.drop_last().update(i, v));
        lemma_sum_update(s.drop_last(), i, v);
    }
}

/// Each element is at most the whole sum.
pub proof fn lemma_sum_bounds_element(s: Seq<usize>, i: int)
    requires
        0 <= i < s.len(),
    ensures
        s[i] <= sum_of(s),
{
    lemma_sum_update(s, i, 0);
    lemma_sum_nonneg(s.update(i, 0));
}

/// A model of one benchmark iteration.
///
/// The real run protects one payload with a lock and lets worker threads
/// race for it; because the lock serialises the increments, the shared
/// counter evolves exactly as this model does under some interleaving of
/// [`Driver::step`] calls.  The model makes that argument checkable: `step`
/// may be driven in any order whatsoever, and once every worker has used up
/// its share, the counter provably equals the expected total.
pub struct Driver {
    /// The nominal amount of work requested for the whole run.
    pub total_work: usize,
    /// How many worker threads share the work.
    pub num_threads: usize,
    /// The shared counter all workers increment under the lock.
    pub counter: u64,
    /// How many increments each worker still has to perform.
    pub remaining: Vec<usize>,
}

impl Driver {
    /// The invariant every reachable state satisfies: one remaining-work
    /// entry per worker, and the counter plus the work still owed always
    /// accounts for exactly the expected total.
    pub open spec fn wf(self) -> bool {
        &&& 1 <= self.num_threads
        &&& self.remaining@.len() == self.num_threads
        &&& self.counter as int + sum_of(self.remaining@) == spec_expected_total(
            self.total_work,
            self.num_threads,
        )
    }

    /// A run is complete when no worker has increments left to perform.
    pub open spec fn spec_done(self) -> bool {
        forall|i: int| 0 <= i < self.remaining@.len() ==> self.remaining@[i] == 0
    }

    /// Sets up a fresh iteration: counter at zero, every worker owed the
    /// per-thread share of the total work.
    pub fn new(total_work: usize, num_threads: usize) -> (d: Driver)
        requires
            1 <= num_threads,
        ensures
            d.wf(),
            d.total_work == total_work,
            d.num_threads == num_threads,
            d.counter == 0,
            forall|i: int|
                0 <= i < num_threads ==> d.remaining@[i] as int == spec_per_thread(
                    total_work,
                    num_threads,
                ),
    {
        let per = total_work / num_threads;
        let mut remaining: Vec<usize> = Vec::new();
        let mut i: usize = 0;
        while i < num_threads
            invariant
                i <= num_threads,
                remaining@.len() == i,
                forall|j: int| 0 <= j < i ==> remaining@[j] == per,
                sum_of(remaining@) == i as int * per as int,
            decreases num_threads - i,
        {
            proof {
                lemma_sum_push(remaining@, per);
                assert((i + 1) as int * per as int == i as int * per as int + per as int)
                    by (nonlinear_arith);
            }
            remaining.push(per);
            i = i + 1;
        }
        proof {
            assert((num_threads as int) * (per as int) == (per as int) * (num_threads as int))
                by (nonlinear_arith);
        }
        Driver { total_work, num_threads, counter: 0, remaining }
    }

    /// One increment by worker `tid`: what the worker does between acquiring
    /// and releasing the lock.  Any worker with work left may step at any
    /// moment; the invariant survives every choice.
    pub fn step(&mut self, tid: usize)
        requires
            old(self).wf(),
            tid < old(self).num_threads,
            old(self).remaining@[tid as int] > 0,
        ensures
            final(self).wf(),
            final(self).total_work == old(self).total_work,
            final(self).num_threads == old(self).num_threads,
            final(self).counter == old(self).counter + 1,
            final(self).remaining@ == old(self).remaining@.update(
                tid as int,
                (old(self).remaining@[tid as int] - 1) as usize,
            ),
    {
        proof {
            lemma_sum_bounds_element(self.remaining@, tid as int);
            lemma_sum_update(
                self.remaining@,
                tid as int,
                (self.remaining@[tid as int] - 1) as usize,
            );
            lemma_expected_total_bounds(self.total_work, self.num_threads);
        }
        let r = self.remaining[tid];
        self.remaining[tid] = r - 1;
        self.counter = self.counter + 1;
    }

    /// Whether every worker has used up its share.
    pub fn is_done(&self) -> (r: bool)
        requires
            self.wf(),
        ensures
            r == self.spec_done(),
    {
        let mut i: usize = 0;
        while i < self.num_threads
            invariant
                self.wf(),
                i <= self.num_threads,
                forall|j: int| 0 <= j < i ==> self.remaining@[j] == 0,
            decreases self.num_threads - i,
        {
            if self.remaining[i] > 0 {
                return false;
            }
            i = i + 1;
        }
        true
    }

    /// Once a run completes, its counter is forced: whatever order the
    /// workers interleaved their increments in, the total is exactly the
    /// expected one — no increment lost, none duplicated.
    pub proof fn lemma_complete_run_counter(self)
        requires
            self.wf(),
            self.spec_done(),
        ensures
            self.counter as int == spec_expected_total(self.total_work, self.num_threads),
    {
        lemma_sum_all_zero(self.remaining@);
    }

    /// When the total work divides evenly across the workers, a completed
    /// run reaches the nominal total exactly, whatever the interleaving:
    /// no increment is lost and none is duplicated.
    pub proof fn lemma_exact_total_when_divisible(self)
        requires
            self.wf(),
            self.spec_done(),
            self.total_work as int % self.num_threads as int == 0,
        ensures
            self.counter == self.total_work,
    {
        self.lemma_complete_run_counter();
        lemma_expected_total_bounds(self.total_work, self.num_threads);
    }

    /// The single-thread boundary: with one worker there is no contention
    /// and no truncation, and a completed run's counter is the whole total
    /// work — the driver is correct independent of concurrency.
    pub proof fn lemma_single_thread_exact(self)
        requires
            self.wf(),
            self.spec_done(),
            self.num_threads == 1,
        ensures
            self.counter == self.total_work,
    {
        self.lemma_complete_run_counter();
        lemma_single_thread_total(self.total_work);
    }

    /// Determinism of the total: two completed runs of the same total work
    /// and thread count end with the same counter, whatever lock discipline
    /// or payload either used and however their schedules differed.
    pub proof fn lemma_run_deterministic(self, other: Driver)
        requires
            self.wf(),
            self.spec_done(),
            other.wf(),
            other.spec_done(),
            self.total_work == other.total_work,
            self.num_threads == other.num_threads,
        ensures
            self.counter == other.counter,
    {
        self.lemma_complete_run_counter();
        other.lemma_complete_run_counter();
    }

    /// Drives the model to completion, worker by worker: the schedule a
    /// single-threaded run would follow.  The ensured counter value is the
    /// same one [`Driver::lemma_complete_run_counter`] forces for every
    /// other schedule.
    pub fn run_to_completion(&mut self)
        requires
            old(self).wf(),
        ensures
            final(self).wf(),
            final(self).spec_done(),
            final(self).total_work == old(self).total_work,
            final(self).num_threads == old(self).num_threads,
            final(self).counter as int == spec_expected_total(
                old(self).total_work,
                old(self).num_threads,
            ),
    {
        let ghost total_work = self.total_work;
        let ghost num_threads = self.num_threads;
        let mut tid: usize = 0;
        while tid < self.num_threads
            invariant
                self.wf(),
                self.total_work == total_work,
                self.num_threads == num_threads,
                tid <= self.num_threads,
                forall|j: int| 0 <= j < tid ==> self.remaining@[j] == 0,
            decreases self.num_threads - tid,
        {
            while self.remaining[tid] > 0
                invariant
                    self.wf(),
                    self.total_work == total_work,
                    self.num_threads == num_threads,
                    tid < self.num_threads,
                    forall|j: int| 0 <= j < tid ==> self.remaining@[j] == 0,
                decreases self.remaining@[tid as int],
            {
                self.step(tid);
            }
            tid = tid + 1;
        }
        proof {
            self.lemma_complete_run_counter();
        }
    }
}

/// The lock discipline one benchmark iteration exercises.  The reader-writer
/// lock is taken in write mode for every increment, so both disciplines give
/// each worker exclusive access to the payload.
#[derive(Debug, Copy, Clone, PartialEq, Eq, Structural)]
pub enum LockKind {
    /// An exclusive-only mutex.
    Mutex,
    /// A reader-writer lock, exercised in exclusive (write) mode.
    RwLock,
}

/// Which payload type the workers contend on.
#[derive(Debug, Copy, Clone, PartialEq, Eq, Structural)]
pub enum PayloadKind {
    /// The cache-line-sized payload, [`Small`].
    Small,
    /// The many-cache-lines payload, [`Large`].
    Large,
}

/// One benchmark configuration: a lock discipline, a payload type, and a
/// worker thread count.
#[derive(Debug, Copy, Clone, PartialEq, Eq, Structural)]
pub struct Config {
    pub lock: LockKind,
    pub payload: PayloadKind,
    pub num_threads: usize,
}

/// One worker increment: acquire the counter handle, add one in place.
/// This is exactly the work a worker performs while holding the lock.
pub fn increment<P: Counter>(p: &mut P)
    requires
        old(p).spec_counter() < u64::MAX,
    ensures
        final(p).spec_counter() == old(p).spec_counter() + 1,
{
    let c = p.counter_mut();
    *c = *c + 1;
}

/// Performs every worker's share of increments on one payload, worker after
/// worker: the sequential reference semantics of a run.  Starting from a
/// zeroed counter, the payload ends at exactly the expected total.
pub fn run_workers<P: Counter>(p: &mut P, total_work: usize, num_threads: usize)
    requires
        1 <= num_threads,
        old(p).spec_counter() == 0,
    ensures
        final(p).spec_counter() as int == spec_expected_total(total_work, num_threads),
{
    proof {
        lemma_expected_total_bounds(total_work, num_threads);
    }
    let per = total_work / num_threads;
    let mut t: usize = 0;
    while t < num_threads
        invariant
            t <= num_threads,
            per as int == spec_per_thread(total_work, num_threads),
            spec_expected_total(total_work, num_threads) <= total_work as int,
            p.spec_counter() as int == (t as int) * (per as int),
        decreases num_threads - t,
    {
        let mut k: usize = 0;
        while k < per
            invariant
                k <= per,
                t < num_threads,
                per as int == spec_per_thread(total_work, num_threads),
                spec_expected_total(total_work, num_threads) <= total_work as int,
                p.spec_counter() as int == (t as int) * (per as int) + (k as int),
            decreases per - k,
        {
            proof {
                assert((t as int) * (per as int) + (k as int) < (num_threads as int) * (per as int))
                    by (nonlinear_arith)
                    requires
                        0 <= t < num_threads as int && 0 <= k < per as int,
                ;
                assert((num_threads as int) * (per as int) == (per as int) * (num_threads as int))
                    by (nonlinear_arith);
            }
            increment(p);
            k = k + 1;
        }
        proof {
            assert(((t + 1) as int) * (per as int) == (t as int) * (per as int) + (per as int))
                by (nonlinear_arith);
        }
        t = t + 1;
    }
    proof {
        assert((num_threads as int) * (per as int) == (per as int) * (num_threads as int))
            by (nonlinear_arith);
    }
}

/// The single callable entry point for one configuration: builds a fresh
/// payload of the configured kind, performs the whole run's increments on
/// it, and returns the final counter.  The result is pinned by the
/// configuration's thread count alone — the lock discipline and payload
/// kind never change it.
pub fn run_config(config: &Config, total_work: usize) -> (c: u64)
    requires
        1 <= config.num_threads,
    ensures
        c as int == spec_expected_total(total_work, config.num_threads),
{
    match config.payload {
        PayloadKind::Small => {
            let mut p = Small::default();
            run_workers(&mut p, total_work, config.num_threads);
            p.counter()
        },
        PayloadKind::Large => {
            let mut p = Large::default();
            run_workers(&mut p, total_work, config.num_threads);
            p.counter()
        },
    }
}

/// Idempotence of configuration: two runs of the same configuration and the
/// same total work — each ending at the counter value [`run_config`]
/// guarantees — end at the same value.
pub proof fn lemma_config_deterministic(config: Config, total_work: usize, c1: u64, c2: u64)
    requires
        c1 as int == spec_expected_total(total_work, config.num_threads),
        c2 as int == spec_expected_total(total_work, config.num_threads),
    ensures
        c1 == c2,
{
}

} // verus!

