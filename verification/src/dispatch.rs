//! Directory tagging and the bounded fan-out of one scan cycle.
//!
//! The walker lists each configured subfolder's immediate child
//! directories; each is tagged with its media kind. The dispatcher
//! then runs one per-title pipeline per directory with at most
//! `limit` of them in flight at once: a slot is acquired before a
//! pipeline starts and released when it finishes, and the cycle
//! completes only when every pipeline has finished.
use vstd::prelude::*;

verus! {

/// The media kind of a tagged directory.
#[derive(Debug, Clone, Copy, PartialEq, Eq, Structural)]
pub enum FolderType {
    TvShow,
    Movie,
}

/// One per-title directory, tagged with its media kind.
#[derive(Debug, Clone)]
pub struct TaggedDir {
    pub path: String,
    pub folder_type: FolderType,
}

/// Tag each listed child directory with the subfolder's media kind.
pub fn tag_directories(paths: Vec<String>, folder_type: FolderType) -> (r: Vec<TaggedDir>)
    ensures
        r@.len() == paths@.len(),
        forall|i: int| #![trigger r@[i]]
            0 <= i < r@.len() ==> r@[i].path == paths@[i] && r@[i].folder_type == folder_type,
{
    let mut out: Vec<TaggedDir> = Vec::new();
    let mut i: usize = 0;
    let len = paths.len();
    while i < len
        invariant
            0 <= i <= len == paths@.len(),
            out@.len() == i,
            forall|j: int| #![trigger out@[j]]
                0 <= j < i ==> out@[j].path == paths@[j] && out@[j].folder_type == folder_type,
        decreases len - i,
    {
        let p = paths[i].clone();
        let tagged = TaggedDir { path: p, folder_type };
        proof {
            assert(tagged.path == paths@[i as int]);
        }
        out.push(tagged);
        i = i + 1;
    }
    out
}

/// The slot budget of one scan cycle: at most `limit` pipelines are in
/// flight at once, and `peak` records the most ever in flight.
#[derive(Debug, Clone, Copy)]
pub struct ConcurrencyBudget {
    pub limit: usize,
    pub in_flight: usize,
    pub peak: usize,
}

impl ConcurrencyBudget {
    /// The budget's invariant: the in-flight count, and the most ever
    /// seen, never exceed the configured limit.
    pub open spec fn wf(&self) -> bool {
        self.in_flight <= self.limit && self.peak <= self.limit && 1 <= self.limit
    }

    /// A fresh budget of `limit` slots, none taken.
    pub fn new(limit: usize) -> (r: ConcurrencyBudget)
        requires
            limit >= 1,
        ensures
            r.wf(),
            r.limit == limit,
            r.in_flight == 0,
            r.peak == 0,
    {
        ConcurrencyBudget { limit, in_flight: 0, peak: 0 }
    }

    /// Take a slot when one is free; with the budget exhausted the
    /// caller must wait (nothing changes). The in-flight count never
    /// passes the limit.
    pub fn try_acquire(&mut self) -> (ok: bool)
        requires
            old(self).wf(),
        ensures
            final(self).wf(),
            final(self).limit == old(self).limit,
            ok == (old(self).in_flight < old(self).limit),
            ok ==> final(self).in_flight == old(self).in_flight + 1 && final(self).peak == (
            if old(self).in_flight + 1 > old(self).peak {
                old(self).in_flight + 1
            } else {
                old(self).peak as int
            }),
            !ok ==> *final(self) == *old(self),
    {
        if self.in_flight < self.limit {
            self.in_flight = self.in_flight + 1;
            if self.in_flight > self.peak {
                self.peak = self.in_flight;
            }
            true
        } else {
            false
        }
    }

    /// Give a slot back when a pipeline finishes.
    pub fn release(&mut self)
        requires
            old(self).wf(),
            old(self).in_flight > 0,
        ensures
            final(self).wf(),
            final(self).limit == old(self).limit,
            final(self).peak == old(self).peak,
            final(self).in_flight == old(self).in_flight - 1,
    {
        self.in_flight = self.in_flight - 1;
    }
}

/// One scan cycle's fan-out over `total` directories with `limit`
/// slots: start a pipeline whenever a slot is free, otherwise let one
/// finish first. Every pipeline completes, and the in-flight count
/// peaks at exactly the smaller of the two bounds: with more
/// directories than slots the whole budget is in use at some point,
/// with fewer, every pipeline runs at once.
pub fn dispatch_cycle(total: usize, limit: usize) -> (r: (usize, usize))
    requires
        limit >= 1,
    ensures
        r.0 == total,
        r.1 == if total < limit {
            total as int
        } else {
            limit as int
        },
{
    let mut budget = ConcurrencyBudget::new(limit);
    let mut started: usize = 0;
    let mut completed: usize = 0;
    while completed < total
        invariant
            budget.wf(),
            budget.limit == limit,
            completed <= started <= total,
            started - completed == budget.in_flight,
            budget.peak == if started < limit {
                started as int
            } else {
                limit as int
            },
            started < limit ==> completed == 0 || started == total,
        decreases (total - started) + (total - completed),
    {
        if started < total {
            if budget.try_acquire() {
                started = started + 1;
            } else {
                budget.release();
                completed = completed + 1;
            }
        } else {
            budget.release();
            completed = completed + 1;
        }
    }
    (completed, budget.peak)
}

} // verus!
