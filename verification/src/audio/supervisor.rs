//! Generations and the bookkeeping of connection workers.
//!
//! Every `Play` takes a new, non-zero generation; workers compare theirs with
//! the active one before and after each blocking stage, and 0 means that no
//! worker is wanted. A replaced worker is retired, not joined: it is kept until
//! it reports that it finished, so that joining never blocks the control loop.
//! The handles are generic; whether one finished is asked by the caller.

use std::collections::VecDeque;
use vstd::prelude::*;
use crate::text::string_from_str;

verus! {

broadcast use vstd::std_specs::vecdeque::group_vec_dequeue_axioms;

/// Hard ceiling for active plus retired connection workers.
pub const MAX_OUTSTANDING_WORKERS: usize = 8;

/// The generation counter and the handles of the workers.
pub struct ConnectionSupervisor<H> {
    /// The generation whose worker is wanted; 0 when none is.
    pub active_generation: u64,
    /// The last generation handed out.
    pub current: u64,
    /// The worker of the current generation, if one was started.
    pub worker: Option<H>,
    /// Replaced workers that may still be running, oldest first.
    pub retired_workers: VecDeque<H>,
}

/// The generation after `g`: never 0, the "none" marker.
pub open spec fn generation_after(g: u64) -> u64 {
    if g == u64::MAX { 1 } else { (g + 1) as u64 }
}

/// The items whose flag is `want`, in their order.
pub open spec fn keep_where<H>(items: Seq<H>, flags: Seq<bool>, want: bool) -> Seq<H>
    decreases items.len(),
{
    if items.len() == 0 {
        Seq::empty()
    } else {
        let rest = keep_where(items.drop_last(), flags, want);
        if flags[items.len() - 1] == want {
            rest.push(items.last())
        } else {
            rest
        }
    }
}

/// The handles of a supervisor: the current worker (if any), then the
/// retired ones.
pub open spec fn outstanding<H>(worker: Option<H>, retired: Seq<H>) -> nat {
    (if worker is Some { 1nat } else { 0nat }) + retired.len()
}

/// The refusal of a new worker while too many are outstanding.
pub open spec fn too_many_workers_message() -> Seq<char> {
    "too many stalled connection workers (8); wait for previous attempts to finish"@
}

impl<H> ConnectionSupervisor<H> {
    /// No generation handed out yet, no worker.
    pub fn new() -> (s: Self)
        ensures
            s.active_generation == 0,
            s.current == 0,
            s.worker is None,
            s.retired_workers@ == Seq::<H>::empty(),
    {
        ConnectionSupervisor {
            active_generation: 0,
            current: 0,
            worker: None,
            retired_workers: VecDeque::new(),
        }
    }

    /// Takes the next non-zero generation and makes it the active one.
    pub fn next_generation(&mut self) -> (g: u64)
        ensures
            g == generation_after(old(self).current),
            g != 0,
            final(self).current == g,
            final(self).active_generation == g,
            final(self).worker == old(self).worker,
            final(self).retired_workers@ == old(self).retired_workers@,
    {
        let next = if self.current == u64::MAX { 1 } else { self.current + 1 };
        self.current = next;
        self.active_generation = next;
        next
    }

    /// Whether events of `generation` belong to the wanted worker.
    pub fn is_active(&self, generation: u64) -> (b: bool)
        ensures
            b == (generation == self.active_generation),
    {
        generation == self.active_generation
    }

    /// Moves the current worker, if any, to the back of the retired ones.
    pub fn retire_active(&mut self)
        ensures
            final(self).worker is None,
            final(self).retired_workers@ == (match old(self).worker {
                Some(h) => old(self).retired_workers@.push(h),
                None => old(self).retired_workers@,
            }),
            final(self).active_generation == old(self).active_generation,
            final(self).current == old(self).current,
    {
        let taken = self.worker.take();
        match taken {
            Some(h) => self.retired_workers.push_back(h),
            None => {},
        }
    }

    /// Splits off the retired workers that finished (`finished[i]` tells of
    /// the `i`-th, oldest first), to be joined; the others stay, in order.
    pub fn reap_finished(&mut self, finished: &[bool]) -> (joinable: Vec<H>)
        requires
            finished@.len() == old(self).retired_workers@.len(),
        ensures
            joinable@ == keep_where(old(self).retired_workers@, finished@, true),
            final(self).retired_workers@ == keep_where(old(self).retired_workers@, finished@, false),
            final(self).worker == old(self).worker,
            final(self).active_generation == old(self).active_generation,
            final(self).current == old(self).current,
    {
        let ghost start = self.retired_workers@;
        let mut pending: VecDeque<H> = VecDeque::new();
        let mut done: Vec<H> = Vec::new();
        let mut i: usize = 0;
        while i < finished.len()
            invariant
                i <= finished@.len(),
                finished@.len() == start.len(),
                self.retired_workers@ == start.skip(i as int),
                done@ == keep_where(start.take(i as int), finished@, true),
                pending@ == keep_where(start.take(i as int), finished@, false),
                self.worker == old(self).worker,
                self.active_generation == old(self).active_generation,
                self.current == old(self).current,
            decreases finished@.len() - i,
        {
            let front = self.retired_workers.pop_front();
            assert(start.take(i + 1).drop_last() =~= start.take(i as int));
            assert(start.take(i + 1).last() == start[i as int]);
            match front {
                Some(h) => {
                    assert(h == start[i as int]);
                    if finished[i] {
                        done.push(h);
                    } else {
                        pending.push_back(h);
                    }
                },
                None => {
                    assert(false);
                },
            }
            assert(self.retired_workers@ =~= start.skip(i + 1));
            i += 1;
        }
        assert(start.take(start.len() as int) =~= start);
        self.retired_workers = pending;
        done
    }

    /// The number of workers not yet joined: the current one and the
    /// retired ones.
    pub fn outstanding_worker_count(&self) -> (n: usize)
        requires
            outstanding(self.worker, self.retired_workers@) <= usize::MAX,
        ensures
            n == outstanding(self.worker, self.retired_workers@),
    {
        let active: usize = if self.worker.is_some() { 1 } else { 0 };
        active + self.retired_workers.len()
    }

    /// Why no new worker may start now, if it may not: the ceiling on
    /// outstanding workers is reached.
    pub fn spawn_refusal(&self) -> (r: Option<String>)
        ensures
            match r {
                Some(m) => outstanding(self.worker, self.retired_workers@) >= MAX_OUTSTANDING_WORKERS
                    && m@ == too_many_workers_message(),
                None => outstanding(self.worker, self.retired_workers@) < MAX_OUTSTANDING_WORKERS,
            },
    {
        let retired = self.retired_workers.len();
        let full = retired >= MAX_OUTSTANDING_WORKERS
            || (self.worker.is_some() && retired + 1 >= MAX_OUTSTANDING_WORKERS);
        if full {
            let m = string_from_str("too many stalled connection workers (8); wait for previous attempts to finish");
            proof {
                reveal_strlit("too many stalled connection workers (8); wait for previous attempts to finish");
            }
            Some(m)
        } else {
            None
        }
    }

    /// Records the worker started for the current generation.
    pub fn set_worker(&mut self, handle: H)
        ensures
            final(self).worker == Some(handle),
            final(self).retired_workers@ == old(self).retired_workers@,
            final(self).active_generation == old(self).active_generation,
            final(self).current == old(self).current,
    {
        self.worker = Some(handle);
    }

    /// Wants no worker any more: no generation is active and the current
    /// worker is retired; the finished retired ones are returned for joining.
    pub fn abandon(&mut self, finished: &[bool]) -> (joinable: Vec<H>)
        requires
            finished@.len() == old(self).retired_workers@.len() + (if old(self).worker is Some { 1int } else { 0int }),
        ensures
            final(self).active_generation == 0,
            final(self).worker is None,
            final(self).current == old(self).current,
            ({
                let all = match old(self).worker {
                    Some(h) => old(self).retired_workers@.push(h),
                    None => old(self).retired_workers@,
                };
                &&& joinable@ == keep_where(all, finished@, true)
                &&& final(self).retired_workers@ == keep_where(all, finished@, false)
            }),
    {
        self.active_generation = 0;
        self.retire_active();
        self.reap_finished(finished)
    }
}

/// Generations only grow, but for the wrap after `u64::MAX`, which skips 0:
/// a new generation makes every earlier one stale.
pub proof fn lemma_generations_increase(g: u64, earlier: u64)
    requires
        earlier <= g,
    ensures
        g < u64::MAX ==> generation_after(g) != earlier,
        generation_after(g) != 0,
        g < u64::MAX ==> generation_after(g) > g,
        g == u64::MAX ==> generation_after(g) == 1,
{
}

/// Reaping loses no worker: each retired handle is either returned for
/// joining or kept.
pub proof fn lemma_reap_partitions<H>(items: Seq<H>, flags: Seq<bool>)
    requires
        flags.len() == items.len(),
    ensures
        keep_where(items, flags, true).len() + keep_where(items, flags, false).len() == items.len(),
        keep_where(items, flags, true).to_multiset().add(keep_where(items, flags, false).to_multiset())
            == items.to_multiset(),
{
    lemma_reap_partitions_prefix(items, flags);
}

proof fn lemma_reap_partitions_prefix<H>(items: Seq<H>, flags: Seq<bool>)
    requires
        items.len() <= flags.len(),
    ensures
        keep_where(items, flags, true).len() + keep_where(items, flags, false).len() == items.len(),
        keep_where(items, flags, true).to_multiset().add(keep_where(items, flags, false).to_multiset())
            == items.to_multiset(),
    decreases items.len(),
{
    broadcast use vstd::seq_lib::group_to_multiset_ensures;
    broadcast use vstd::multiset::group_multiset_axioms;
    if items.len() > 0 {
        let init = items.drop_last();
        lemma_reap_partitions_prefix(init, flags);
        assert(items =~= init.push(items.last()));
        let t = keep_where(init, flags, true);
        let f = keep_where(init, flags, false);
        if flags[items.len() - 1] {
            assert(keep_where(items, flags, true) == t.push(items.last()));
            assert(t.push(items.last()).to_multiset().add(f.to_multiset())
                =~= t.to_multiset().add(f.to_multiset()).insert(items.last()));
        } else {
            assert(keep_where(items, flags, false) == f.push(items.last()));
            assert(t.to_multiset().add(f.push(items.last()).to_multiset())
                =~= t.to_multiset().add(f.to_multiset()).insert(items.last()));
        }
    } else {
        assert(items.to_multiset() =~= vstd::multiset::Multiset::empty());
        assert(keep_where(items, flags, true).to_multiset() =~= vstd::multiset::Multiset::empty());
        assert(keep_where(items, flags, false).to_multiset() =~= vstd::multiset::Multiset::empty());
    }
}

} // verus!
