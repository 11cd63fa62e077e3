//! The overlap-guarded scheduler. One shared in-flight flag, initially
//! clear, guards every firing — cron firings and the startup run
//! alike: a firing runs the scan body exactly when it finds the flag
//! clear, atomically setting it; a firing that finds it set is skipped
//! entirely, with no queueing of missed firings; completion clears the
//! flag. The cron driver itself lives with the caller; every decision
//! about whether a firing runs is taken here.
use vstd::prelude::*;

verus! {

/// The cycle-level mutual-exclusion flag.
#[derive(Debug, Clone, Copy)]
pub struct OverlapGuard {
    pub running: bool,
}

/// What a test-and-set firing does to the guard: the flag ends set,
/// and the firing runs exactly when the flag was clear.
pub open spec fn try_begin_spec(g: OverlapGuard) -> (OverlapGuard, bool) {
    (OverlapGuard { running: true }, !g.running)
}

impl OverlapGuard {
    /// A fresh guard, clear.
    pub fn new() -> (r: OverlapGuard)
        ensures
            !r.running,
    {
        OverlapGuard { running: false }
    }

    /// Atomically test and set: the firing may run exactly when no
    /// cycle was in flight; either way a cycle is in flight after.
    pub fn try_begin(&mut self) -> (acquired: bool)
        ensures
            (*final(self), acquired) == try_begin_spec(*old(self)),
    {
        let acquired = !self.running;
        self.running = true;
        acquired
    }

    /// A completed cycle clears the flag.
    pub fn finish(&mut self)
        ensures
            !final(self).running,
    {
        self.running = false;
    }
}

/// Overlap exclusion: a firing on an idle guard runs and takes the
/// flag; any firing before completion is skipped; after completion a
/// firing runs again.
pub proof fn lemma_overlap_exclusion(g: OverlapGuard)
    ensures
        ({
            let (g1, first) = try_begin_spec(g);
            let (g2, second) = try_begin_spec(g1);
            (first == !g.running) && !second && g2.running
        }),
{
}

/// The recurring scraping job: one overlap guard shared by the cron
/// firings and the startup run.
#[derive(Debug, Clone, Copy)]
pub struct ScrapingScheduler {
    pub is_running: OverlapGuard,
}

impl ScrapingScheduler {
    /// A fresh scheduler whose guard is clear.
    pub fn new() -> (r: ScrapingScheduler)
        ensures
            !r.is_running.running,
    {
        ScrapingScheduler { is_running: OverlapGuard::new() }
    }

    /// Decide one firing — a cron trigger or the startup run: the scan
    /// body runs exactly when no cycle is in flight.
    pub fn on_trigger(&mut self) -> (run: bool)
        ensures
            run == !old(self).is_running.running,
            final(self).is_running.running,
    {
        self.is_running.try_begin()
    }

    /// A cycle ran to completion: clear the flag so the next firing
    /// runs.
    pub fn on_cycle_complete(&mut self)
        ensures
            !final(self).is_running.running,
    {
        self.is_running.finish();
    }
}

/// The composition root's scheduler: fresh, with a clear guard.
pub fn initialize_schedulers() -> (r: ScrapingScheduler)
    ensures
        !r.is_running.running,
{
    ScrapingScheduler::new()
}

/// The cron expression a scheduler uses: the configured one, or the
/// fixed daily default when none is configured.
pub fn effective_schedule(schedule: &Option<String>) -> (r: String)
    ensures
        match schedule {
            Some(s) => r@ == s@,
            None => r@ == "0 0 * * *"@,
        },
{
    match schedule {
        Some(s) => s.clone(),
        None => "0 0 * * *".to_owned(),
    }
}

} // verus!
