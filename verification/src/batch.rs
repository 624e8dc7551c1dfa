//! The batch controller: the decision core of a run.
//!
//! A run is a sequential producer (fetch one pack at a time, in ascending
//! order), a bounded queue into a worker pool that extracts at most
//! `EXTRACT_CONCURRENCY` packs at once, and a failure collector drained once
//! at the end. The controller holds that state and accounts for every pack
//! in the range exactly once: queued, extracting, finished, or failed.

use vstd::prelude::*;
use vstd::multiset::Multiset;

use crate::errors::{ExtractFailure, FetchFailure, TaskFailure};
use crate::range::BatchRange;
use crate::task::PackerTaskFail;

verus! {

broadcast use vstd::seq_lib::group_to_multiset_ensures;

/// Cap on concurrently-running extractions (the permit count).
pub const EXTRACT_CONCURRENCY: usize = 3;

/// Capacity of the bounded queue between producer and pool; enqueueing
/// blocks the producer while it is full.
pub const QUEUE_CAPACITY: usize = 10;

/// Capacity of the failure collector: at least the largest batch, so a
/// sender never blocks on it.
pub const FAILURE_CAPACITY: usize = 3000;

/// The pack numbers of a sequence of failure records, in arrival order.
pub open spec fn fail_nums(s: Seq<PackerTaskFail>) -> Seq<u16> {
    s.map_values(|f: PackerTaskFail| f.spec_pack_num())
}

/// State of one batch run.
pub struct BatchController {
    range: BatchRange,
    next_num: u16,
    queue: Vec<u16>,
    extracting: Vec<u16>,
    finished: Vec<u16>,
    failures: Vec<PackerTaskFail>,
}

impl BatchController {
    pub closed spec fn spec_min(&self) -> u16 {
        self.range.spec_min()
    }

    pub closed spec fn spec_max(&self) -> u16 {
        self.range.spec_max()
    }

    /// The next pack number the producer will attempt.
    pub closed spec fn spec_next(&self) -> u16 {
        self.next_num
    }

    /// Packs fetched and waiting for a free extraction permit, oldest first.
    pub closed spec fn queued(&self) -> Seq<u16> {
        self.queue@
    }

    /// Packs whose extraction is currently running.
    pub closed spec fn extracting_seq(&self) -> Seq<u16> {
        self.extracting@
    }

    /// Packs extracted successfully.
    pub closed spec fn finished_seq(&self) -> Seq<u16> {
        self.finished@
    }

    /// Failure records in arrival order.
    pub closed spec fn failures_seq(&self) -> Seq<PackerTaskFail> {
        self.failures@
    }

    /// The pack numbers named by the failure records.
    pub open spec fn failed_nums(&self) -> Seq<u16> {
        fail_nums(self.failures_seq())
    }

    /// Every pack number currently accounted for, over all four dispositions.
    pub open spec fn accounted(&self) -> Multiset<u16> {
        self.queued().to_multiset().add(self.extracting_seq().to_multiset()).add(
            self.finished_seq().to_multiset(),
        ).add(self.failed_nums().to_multiset())
    }

    /// The producer has already attempted pack `n`.
    pub open spec fn attempted(&self, n: u16) -> bool {
        self.spec_min() <= n && n < self.spec_next()
    }

    /// The run's invariant: bounds are in order; every attempted pack is
    /// accounted for exactly once and no other pack at all; the four
    /// dispositions together hold one entry per attempted pack; the queue is
    /// within capacity and ascending; running extractions stay at or below
    /// the cap.
    pub open spec fn wf(&self) -> bool {
        &&& self.spec_min() >= 1
        &&& self.spec_min() <= self.spec_max()
        &&& self.spec_max() < crate::range::PACK_NUM_CEILING
        &&& self.spec_min() <= self.spec_next()
        &&& self.spec_next() <= self.spec_max() + 1
        &&& forall|n: u16|
            #[trigger] self.accounted().count(n) == if self.attempted(n) {
                1nat
            } else {
                0nat
            }
        &&& self.queued().len() + self.extracting_seq().len() + self.finished_seq().len()
            + self.failures_seq().len() == self.spec_next() - self.spec_min()
        &&& self.queued().len() <= QUEUE_CAPACITY
        &&& self.extracting_seq().len() <= EXTRACT_CONCURRENCY
        &&& forall|i: int, j: int|
            0 <= i < j < self.queued().len() ==> #[trigger] self.queued()[i]
                < #[trigger] self.queued()[j]
    }

    /// A fresh controller for a validated range: nothing attempted yet.
    pub fn new(range: &BatchRange) -> (c: Self)
        requires
            range.well_formed(),
        ensures
            c.wf(),
            c.spec_min() == range.spec_min(),
            c.spec_max() == range.spec_max(),
            c.spec_next() == range.spec_min(),
            c.queued().len() == 0,
            c.extracting_seq().len() == 0,
            c.finished_seq().len() == 0,
            c.failures_seq().len() == 0,
    {
        let c = BatchController {
            range: *range,
            next_num: range.min(),
            queue: Vec::new(),
            extracting: Vec::new(),
            finished: Vec::new(),
            failures: Vec::new(),
        };
        proof {
            assert forall|n: u16| #[trigger] c.accounted().count(n) == 0nat by {
                assert(!c.queued().contains(n));
                assert(!c.extracting_seq().contains(n));
                assert(!c.finished_seq().contains(n));
                assert(!c.failed_nums().contains(n));
            }
        }
        c
    }

    /// The pack the producer should fetch next, or `None` once the range is
    /// exhausted. Producer order is strictly ascending.
    pub fn next_fetch(&self) -> (r: Option<u16>)
        requires
            self.wf(),
        ensures
            r matches Some(n) ==> n == self.spec_next() && self.spec_min() <= n <= self.spec_max(),
            r is None <==> self.spec_next() > self.spec_max(),
    {
        if self.next_num <= self.range.max() {
            Some(self.next_num)
        } else {
            None
        }
    }

    /// Whether the bounded queue has room; while it has not, the producer
    /// must wait before staging another pack.
    pub fn can_enqueue(&self) -> (r: bool)
        ensures
            r == (self.queued().len() < QUEUE_CAPACITY),
    {
        self.queue.len() < QUEUE_CAPACITY
    }

    /// The producer fetched and staged the current pack: enqueue it for
    /// extraction and move to the next pack number.
    pub fn record_fetch_success(&mut self)
        requires
            old(self).wf(),
            old(self).spec_next() <= old(self).spec_max(),
            old(self).queued().len() < QUEUE_CAPACITY,
        ensures
            final(self).wf(),
            final(self).queued() == old(self).queued().push(old(self).spec_next()),
            final(self).spec_next() == old(self).spec_next() + 1,
            final(self).extracting_seq() == old(self).extracting_seq(),
            final(self).finished_seq() == old(self).finished_seq(),
            final(self).failures_seq() == old(self).failures_seq(),
            final(self).spec_min() == old(self).spec_min(),
            final(self).spec_max() == old(self).spec_max(),
    {
        let n = self.next_num;
        self.queue.push(n);
        self.next_num = n + 1;
        proof {
            let prev = *old(self);
            assert(self.accounted() =~= prev.accounted().insert(n));
            assert(prev.accounted().count(n) == 0nat);
            assert forall|m: u16|
                #[trigger] self.accounted().count(m) == if self.attempted(m) {
                    1nat
                } else {
                    0nat
                } by {
                assert(prev.accounted().count(m) == if prev.attempted(m) {
                    1nat
                } else {
                    0nat
                });
            }
            assert forall|i: int, j: int|
                0 <= i < j < self.queued().len() implies #[trigger] self.queued()[i]
                < #[trigger] self.queued()[j] by {
                if j < prev.queued().len() {
                    assert(prev.queued()[i] < prev.queued()[j]);
                } else {
                    assert(prev.queued().contains(prev.queued()[i]));
                    assert(prev.queued().to_multiset().count(prev.queued()[i]) > 0);
                    assert(prev.accounted().count(prev.queued()[i]) > 0);
                    assert(prev.attempted(prev.queued()[i]));
                }
            }
        }
    }

    /// The producer's fetch of the current pack failed: record a terminal
    /// fetch-stage failure for it, bypassing the queue and the pool, and move
    /// to the next pack number.
    pub fn record_fetch_failure(&mut self, cause: FetchFailure)
        requires
            old(self).wf(),
            old(self).spec_next() <= old(self).spec_max(),
        ensures
            final(self).wf(),
            final(self).failures_seq().len() == old(self).failures_seq().len() + 1,
            final(self).failures_seq().drop_last() == old(self).failures_seq(),
            final(self).failures_seq().last().spec_pack_num() == old(self).spec_next(),
            final(self).failures_seq().last().spec_error() == TaskFailure::Fetch(cause),
            final(self).spec_next() == old(self).spec_next() + 1,
            final(self).queued() == old(self).queued(),
            final(self).extracting_seq() == old(self).extracting_seq(),
            final(self).finished_seq() == old(self).finished_seq(),
            final(self).spec_min() == old(self).spec_min(),
            final(self).spec_max() == old(self).spec_max(),
    {
        let n = self.next_num;
        let record = PackerTaskFail::new(n, TaskFailure::Fetch(cause));
        self.failures.push(record);
        self.next_num = n + 1;
        proof {
            let prev = *old(self);
            assert(self.failed_nums() =~= prev.failed_nums().push(n));
            assert(self.accounted() =~= prev.accounted().insert(n));
            assert(prev.accounted().count(n) == 0nat);
            assert forall|m: u16|
                #[trigger] self.accounted().count(m) == if self.attempted(m) {
                    1nat
                } else {
                    0nat
                } by {
                assert(prev.accounted().count(m) == if prev.attempted(m) {
                    1nat
                } else {
                    0nat
                });
            }
            assert(self.failures_seq().drop_last() =~= prev.failures_seq());
        }
    }

    /// Hand the oldest queued pack to an extraction worker if a permit is
    /// free. Returns the pack now extracting, or `None` if the queue is empty
    /// or all permits are held. Delivery follows queue order, so packs reach
    /// the pool in ascending order.
    pub fn start_extraction(&mut self) -> (r: Option<u16>)
        requires
            old(self).wf(),
        ensures
            final(self).wf(),
            old(self).queued().len() > 0 && old(self).extracting_seq().len() < EXTRACT_CONCURRENCY
                ==> r == Some(old(self).queued()[0]) && final(self).queued() == old(
                self,
            ).queued().remove(0) && final(self).extracting_seq() == old(
                self,
            ).extracting_seq().push(old(self).queued()[0]) && final(self).extracting_seq().contains(
                old(self).queued()[0],
            ),
            !(old(self).queued().len() > 0 && old(self).extracting_seq().len()
                < EXTRACT_CONCURRENCY) ==> r is None && *final(self) == *old(self),
            final(self).finished_seq() == old(self).finished_seq(),
            final(self).failures_seq() == old(self).failures_seq(),
            final(self).spec_next() == old(self).spec_next(),
            final(self).spec_min() == old(self).spec_min(),
            final(self).spec_max() == old(self).spec_max(),
    {
        if self.queue.len() > 0 && self.extracting.len() < EXTRACT_CONCURRENCY {
            let n = self.queue.remove(0);
            self.extracting.push(n);
            proof {
                let prev = *old(self);
                assert(self.queued().to_multiset() =~= prev.queued().to_multiset().remove(n));
                assert(prev.queued().contains(n));
                assert(prev.queued().to_multiset().count(n) > 0);
                assert(self.accounted() =~= prev.accounted());
                assert(self.extracting_seq()[self.extracting_seq().len() - 1] == n);
                assert(self.extracting_seq().contains(n));
            }
            Some(n)
        } else {
            None
        }
    }

    /// A worker finished extracting pack `n` successfully: release its permit
    /// and record the terminal success.
    pub fn record_extract_success(&mut self, n: u16)
        requires
            old(self).wf(),
            old(self).extracting_seq().contains(n),
        ensures
            final(self).wf(),
            final(self).extracting_seq().to_multiset() == old(
                self,
            ).extracting_seq().to_multiset().remove(n),
            final(self).extracting_seq().len() == old(self).extracting_seq().len() - 1,
            final(self).finished_seq() == old(self).finished_seq().push(n),
            final(self).queued() == old(self).queued(),
            final(self).failures_seq() == old(self).failures_seq(),
            final(self).spec_next() == old(self).spec_next(),
            final(self).spec_min() == old(self).spec_min(),
            final(self).spec_max() == old(self).spec_max(),
    {
        let i = position_of(&self.extracting, n);
        self.extracting.remove(i);
        self.finished.push(n);
        proof {
            let prev = *old(self);
            assert(self.extracting_seq().to_multiset() =~= prev.extracting_seq().to_multiset()
                .remove(n));
            assert(prev.extracting_seq().to_multiset().count(n) > 0);
            assert(self.accounted() =~= prev.accounted());
        }
    }

    /// A worker's extraction of pack `n` failed: release its permit and
    /// record a terminal extract-stage failure. The batch goes on; the error
    /// never aborts sibling packs.
    pub fn record_extract_failure(&mut self, n: u16, cause: ExtractFailure)
        requires
            old(self).wf(),
            old(self).extracting_seq().contains(n),
        ensures
            final(self).wf(),
            final(self).extracting_seq().to_multiset() == old(
                self,
            ).extracting_seq().to_multiset().remove(n),
            final(self).extracting_seq().len() == old(self).extracting_seq().len() - 1,
            final(self).failures_seq().len() == old(self).failures_seq().len() + 1,
            final(self).failures_seq().drop_last() == old(self).failures_seq(),
            final(self).failures_seq().last().spec_pack_num() == n,
            final(self).failures_seq().last().spec_error() == TaskFailure::Extract(cause),
            final(self).queued() == old(self).queued(),
            final(self).finished_seq() == old(self).finished_seq(),
            final(self).spec_next() == old(self).spec_next(),
            final(self).spec_min() == old(self).spec_min(),
            final(self).spec_max() == old(self).spec_max(),
    {
        let i = position_of(&self.extracting, n);
        self.extracting.remove(i);
        let record = PackerTaskFail::new(n, TaskFailure::Extract(cause));
        self.failures.push(record);
        proof {
            let prev = *old(self);
            assert(self.extracting_seq().to_multiset() =~= prev.extracting_seq().to_multiset()
                .remove(n));
            assert(prev.extracting_seq().to_multiset().count(n) > 0);
            assert(self.failed_nums() =~= prev.failed_nums().push(n));
            assert(self.accounted() =~= prev.accounted());
            assert(self.failures_seq().drop_last() =~= prev.failures_seq());
        }
    }

    /// Whether the run is over: the range is exhausted, the queue is drained,
    /// and every spawned extraction has completed. Only then may the failure
    /// collector be drained.
    pub fn is_complete(&self) -> (r: bool)
        ensures
            r == (self.spec_next() > self.spec_max() && self.queued().len() == 0
                && self.extracting_seq().len() == 0),
    {
        self.next_num > self.range.max() && self.queue.len() == 0 && self.extracting.len() == 0
    }

    /// How many extractions are running right now.
    pub fn extracting_count(&self) -> (r: usize)
        ensures
            r == self.extracting_seq().len(),
    {
        self.extracting.len()
    }

    /// The packs extracted successfully so far.
    pub fn finished_packs(&self) -> (r: &Vec<u16>)
        ensures
            r@ == self.finished_seq(),
    {
        &self.finished
    }

    /// How many failure records have been collected so far.
    pub fn failure_count(&self) -> (r: usize)
        ensures
            r == self.failures_seq().len(),
    {
        self.failures.len()
    }

    /// Drains the failure collector: every record, in arrival order. Meant to
    /// be called once, after `is_complete` holds.
    pub fn into_failures(self) -> (v: Vec<PackerTaskFail>)
        ensures
            v@ == self.failures_seq(),
    {
        self.failures
    }
}

/// One pack's end-to-end outcome, as the outside world decides it: the
/// fetch and extraction results a run reacts to.
#[derive(Debug, PartialEq, Eq)]
pub enum PackOutcome {
    /// Fetch and extraction both succeeded.
    Extracted,
    /// The fetch failed with this cause; the pack never reaches the pool.
    FetchFailed(FetchFailure),
    /// The fetch succeeded and the extraction then failed with this cause.
    ExtractFailed(ExtractFailure),
}

/// Runs one whole batch sequentially: for each pack of the range in
/// ascending order, the given outcome is recorded — a fetch failure bypasses
/// the pool, a fetched pack is extracted under the permit cap. The returned
/// state is complete and accounts for every pack of the range exactly once:
/// finished when its outcome succeeded, named by exactly one failure record
/// otherwise.
pub fn run_batch(range: &BatchRange, outcomes: Vec<PackOutcome>) -> (c: BatchController)
    requires
        range.well_formed(),
        outcomes@.len() == range.spec_len(),
    ensures
        c.wf(),
        c.spec_min() == range.spec_min(),
        c.spec_max() == range.spec_max(),
        c.spec_next() == range.spec_max() + 1,
        c.queued().len() == 0,
        c.extracting_seq().len() == 0,
        forall|i: int|
            #![trigger outcomes@[i]]
            0 <= i < outcomes@.len() ==> c.finished_seq().to_multiset().count(
                (range.spec_min() + i) as u16,
            ) == (if outcomes@[i] is Extracted {
                1nat
            } else {
                0nat
            }) && c.failed_nums().to_multiset().count((range.spec_min() + i) as u16) == (
            if outcomes@[i] is Extracted {
                0nat
            } else {
                1nat
            }),
{
    let ghost all = outcomes@;
    let mut outcomes = outcomes;
    let mut c = BatchController::new(range);
    loop
        invariant
            c.wf(),
            c.spec_min() == range.spec_min(),
            c.spec_max() == range.spec_max(),
            c.queued().len() == 0,
            c.extracting_seq().len() == 0,
            all.len() == range.spec_len(),
            outcomes@ == all.skip(c.spec_next() - range.spec_min()),
            forall|i: int|
                #![trigger all[i]]
                0 <= i < c.spec_next() - range.spec_min() ==> c.finished_seq().to_multiset().count(
                    (range.spec_min() + i) as u16,
                ) == (if all[i] is Extracted {
                    1nat
                } else {
                    0nat
                }) && c.failed_nums().to_multiset().count((range.spec_min() + i) as u16) == (
                if all[i] is Extracted {
                    0nat
                } else {
                    1nat
                }),
        ensures
            c.spec_next() > range.spec_max(),
        decreases range.spec_max() + 1 - c.spec_next(),
    {
        let n = match c.next_fetch() {
            Some(n) => n,
            None => { break },
        };
        let ghost idx = c.spec_next() - range.spec_min();
        let ghost before = c;
        let outcome = outcomes.remove(0);
        proof {
            assert(outcomes@ =~= all.skip(idx + 1));
            assert(outcome == all[idx]);
            assert(before.accounted().count(n) == 0);
            assert(before.finished_seq().to_multiset().count(n) == 0);
            assert(before.failed_nums().to_multiset().count(n) == 0);
        }
        match outcome {
            PackOutcome::Extracted => {
                c.record_fetch_success();
                if let Some(m) = c.start_extraction() {
                    c.record_extract_success(m);
                    proof {
                        assert(c.finished_seq().to_multiset()
                            =~= before.finished_seq().to_multiset().insert(n));
                        assert(c.failed_nums() == before.failed_nums());
                    }
                } else {
                    proof {
                        assert(false);
                    }
                }
            },
            PackOutcome::FetchFailed(cause) => {
                c.record_fetch_failure(cause);
                proof {
                    assert(c.failures_seq() =~= before.failures_seq().push(
                        c.failures_seq().last(),
                    ));
                    assert(c.failed_nums() =~= before.failed_nums().push(n));
                    assert(c.failed_nums().to_multiset() =~= before.failed_nums().to_multiset()
                        .insert(n));
                    assert(c.finished_seq() == before.finished_seq());
                }
            },
            PackOutcome::ExtractFailed(cause) => {
                c.record_fetch_success();
                if let Some(m) = c.start_extraction() {
                    c.record_extract_failure(m, cause);
                    proof {
                        assert(c.failures_seq() =~= before.failures_seq().push(
                            c.failures_seq().last(),
                        ));
                        assert(c.failed_nums() =~= before.failed_nums().push(n));
                        assert(c.failed_nums().to_multiset() =~= before.failed_nums().to_multiset()
                            .insert(n));
                        assert(c.finished_seq() == before.finished_seq());
                    }
                } else {
                    proof {
                        assert(false);
                    }
                }
            },
        }
        proof {
            assert(c.spec_next() == before.spec_next() + 1);
            assert(c.finished_seq().to_multiset().count(n) == (if all[idx] is Extracted {
                1nat
            } else {
                0nat
            }));
            assert(c.failed_nums().to_multiset().count(n) == (if all[idx] is Extracted {
                0nat
            } else {
                1nat
            }));
            assert forall|i: int|
                0 <= i < c.spec_next() - range.spec_min() implies c.finished_seq().to_multiset().count(
                ((range.spec_min() + i) as u16),
            ) == (if #[trigger] all[i] is Extracted {
                1nat
            } else {
                0nat
            }) && c.failed_nums().to_multiset().count((range.spec_min() + i) as u16) == (
            if all[i] is Extracted {
                0nat
            } else {
                1nat
            }) by {
                let m = (range.spec_min() + i) as u16;
                assert(range.spec_min() + i <= range.spec_max());
                if i < idx {
                    assert(before.finished_seq().to_multiset().count(m) == (
                    if all[i] is Extracted {
                        1nat
                    } else {
                        0nat
                    }));
                    assert(before.failed_nums().to_multiset().count(m) == (
                    if all[i] is Extracted {
                        0nat
                    } else {
                        1nat
                    }));
                    assert(m != n);
                } else {
                    assert(i == idx);
                    assert(m == n);
                }
            }
        }
    }
    c
}

fn position_of(v: &Vec<u16>, n: u16) -> (r: usize)
    requires
        v@.contains(n),
    ensures
        r < v@.len(),
        v@[r as int] == n,
{
    let mut i: usize = 0;
    while i < v.len()
        invariant
            i <= v@.len(),
            v@.contains(n),
            forall|j: int| 0 <= j < i ==> v@[j] != n,
        decreases v@.len() - i,
    {
        if v[i] == n {
            return i;
        }
        i += 1;
    }
    proof {
        let j = choose|j: int| 0 <= j < v@.len() && v@[j] == n;
        assert(false);
    }
    0
}

/// Law: in every reachable state the number of concurrently-running
/// extractions is at most the cap.
pub proof fn lemma_concurrency_bounded(c: &BatchController)
    requires
        c.wf(),
    ensures
        c.extracting_seq().len() <= EXTRACT_CONCURRENCY,
{
}

/// Law: when a run is complete, every pack of the range has exactly one
/// terminal outcome — finished, or named by one failure record — never both
/// and never neither; no pack outside the range has any outcome.
pub proof fn lemma_complete_run_accounts_every_pack(c: &BatchController)
    requires
        c.wf(),
        c.spec_next() > c.spec_max(),
        c.queued().len() == 0,
        c.extracting_seq().len() == 0,
    ensures
        forall|n: u16|
            #![trigger c.finished_seq().to_multiset().count(n)]
            #![trigger c.failed_nums().to_multiset().count(n)]
            c.spec_min() <= n <= c.spec_max() ==> c.finished_seq().to_multiset().count(n)
                + c.failed_nums().to_multiset().count(n) == 1,
        forall|n: u16|
            #![trigger c.finished_seq().to_multiset().count(n)]
            #![trigger c.failed_nums().to_multiset().count(n)]
            !(c.spec_min() <= n <= c.spec_max()) ==> c.finished_seq().to_multiset().count(n) == 0
                && c.failed_nums().to_multiset().count(n) == 0,
{
    assert forall|n: u16|
        c.spec_min() <= n <= c.spec_max() implies #[trigger] c.finished_seq().to_multiset().count(n)
        + c.failed_nums().to_multiset().count(n) == 1 by {
        assert(!c.queued().contains(n));
        assert(!c.extracting_seq().contains(n));
        assert(c.queued().to_multiset().count(n) == 0);
        assert(c.extracting_seq().to_multiset().count(n) == 0);
        assert(c.accounted().count(n) == 1);
    }
    assert forall|n: u16|
        !(c.spec_min() <= n <= c.spec_max()) implies #[trigger] c.finished_seq().to_multiset().count(
        n,
    ) == 0 && c.failed_nums().to_multiset().count(n) == 0 by {
        assert(!c.queued().contains(n));
        assert(!c.extracting_seq().contains(n));
        assert(c.queued().to_multiset().count(n) == 0);
        assert(c.extracting_seq().to_multiset().count(n) == 0);
        assert(c.accounted().count(n) == 0);
    }
}

/// Law: no pack is named by two failure records, and no finished pack is
/// named by any; every named pack was attempted. Together with the recording
/// contracts — which append a record exactly when a fetch or an extraction
/// fails — the failure records name exactly the packs that genuinely failed.
pub proof fn lemma_failures_exact(c: &BatchController)
    requires
        c.wf(),
    ensures
        forall|n: u16| #[trigger] c.failed_nums().to_multiset().count(n) <= 1,
        forall|n: u16|
            #[trigger] c.failed_nums().to_multiset().count(n) > 0
                ==> c.finished_seq().to_multiset().count(n) == 0,
        forall|n: u16| #[trigger] c.failed_nums().to_multiset().count(n) > 0 ==> c.attempted(n),
{
    assert forall|n: u16| #[trigger] c.failed_nums().to_multiset().count(n)
        <= c.accounted().count(n) by {}
    assert forall|n: u16|
        #[trigger] c.failed_nums().to_multiset().count(n) > 0 implies c.finished_seq().to_multiset().count(
        n,
    ) == 0 by {
        assert(c.accounted().count(n) <= 1);
    }
}

/// Law: packs wait in the bounded queue in strictly ascending order — the
/// order the producer submitted them — so the pool receives them in
/// submission order. Completion order of extractions is not constrained.
pub proof fn lemma_queue_ascending(c: &BatchController)
    requires
        c.wf(),
    ensures
        forall|i: int, j: int|
            0 <= i < j < c.queued().len() ==> #[trigger] c.queued()[i] < #[trigger] c.queued()[j],
{
}

/// Law: the failure collector never fills: even if every pack of the largest
/// allowed range fails, the records stay below its capacity, so recording a
/// failure never blocks the producer or a worker.
pub proof fn lemma_failures_within_capacity(c: &BatchController)
    requires
        c.wf(),
    ensures
        c.failures_seq().len() < FAILURE_CAPACITY,
{
}

} // verus!
