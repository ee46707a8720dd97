use vstd::prelude::*;
use crate::buttons::{ButtonKind, ScreenPoint};

verus! {

/// Settle delay between a pointer warp and the click, in milliseconds.
pub const SETTLE_MILLIS: u64 = 10;

/// A run of (move, click) iterations with a budget.
#[derive(Clone, Copy, Debug, PartialEq, Eq, Structural)]
pub struct ClickJob {
    pub target: ScreenPoint,
    pub button: ButtonKind,
    pub cadence_millis: u64,
    pub remaining: u32,
}

/// State shared between the control surface and a running job.
#[derive(Clone, Copy, Debug, PartialEq, Eq, Structural)]
pub struct EngineCounters {
    pub running: bool,
    pub completed: u64,
}

/// The counter after one more successful click; it saturates.
pub open spec fn bump(c: u64) -> u64 {
    if c < u64::MAX { (c + 1) as u64 } else { c }
}

/// Number of successful outcomes in `outcomes`.
pub open spec fn successes(outcomes: Seq<bool>) -> nat
    decreases outcomes.len(),
{
    if outcomes.len() == 0 {
        0
    } else {
        successes(outcomes.drop_last()) + if outcomes.last() { 1nat } else { 0nat }
    }
}

/// What the control surface does next for a running job.
#[derive(Clone, Copy, Debug, PartialEq, Eq, Structural)]
pub enum JobAction {
    /// Move to the target, settle, click, then report the outcome.
    Iterate,
    /// The job has ended; `running` has been cleared.
    Finished,
}

impl EngineCounters {
    /// No job running, no clicks counted.
    pub fn new() -> (r: EngineCounters)
        ensures
            !r.running,
            r.completed == 0,
    {
        EngineCounters { running: false, completed: 0 }
    }

    pub fn is_running(&self) -> (r: bool)
        ensures
            r == self.running,
    {
        self.running
    }

    pub fn completed_click_count(&self) -> (r: u64)
        ensures
            r == self.completed,
    {
        self.completed
    }

    /// Starts a job of `count` iterations; while a job runs the request is
    /// dropped and nothing changes.
    pub fn start_job(&mut self, target: ScreenPoint, button: ButtonKind, cadence_millis: u64, count: u32)
        -> (r: Option<ClickJob>)
        ensures
            old(self).running ==> r.is_none() && *final(self) == *old(self),
            !old(self).running ==> r == Some(ClickJob { target, button, cadence_millis, remaining: count })
                && final(self).running && final(self).completed == old(self).completed,
    {
        if self.running {
            None
        } else {
            self.running = true;
            Some(ClickJob { target, button, cadence_millis, remaining: count })
        }
    }

    /// Starts a job of a single iteration.
    pub fn start_single(&mut self, target: ScreenPoint, button: ButtonKind) -> (r: Option<ClickJob>)
        ensures
            old(self).running ==> r.is_none() && *final(self) == *old(self),
            !old(self).running ==> r == Some(ClickJob { target, button, cadence_millis: 0, remaining: 1 })
                && final(self).running && final(self).completed == old(self).completed,
    {
        self.start_job(target, button, 0, 1)
    }

    /// Decides the next step of `job`: iterate while running with budget
    /// left; otherwise clear `running` and finish.
    pub fn next_action(&mut self, job: &ClickJob) -> (r: JobAction)
        ensures
            (old(self).running && job.remaining > 0) ==> r == JobAction::Iterate && *final(self) == *old(self),
            !(old(self).running && job.remaining > 0) ==> r == JobAction::Finished
                && !final(self).running && final(self).completed == old(self).completed,
    {
        if self.running && job.remaining > 0 {
            JobAction::Iterate
        } else {
            self.running = false;
            JobAction::Finished
        }
    }

    /// Records one iteration: a success counts a click; either way one unit
    /// of the budget is spent.
    pub fn record_attempt(&mut self, job: &mut ClickJob, clicked: bool)
        requires
            old(job).remaining > 0,
        ensures
            final(job).remaining == old(job).remaining - 1,
            final(job).target == old(job).target,
            final(job).button == old(job).button,
            final(job).cadence_millis == old(job).cadence_millis,
            final(self).running == old(self).running,
            final(self).completed == if clicked { bump(old(self).completed) } else { old(self).completed },
    {
        if clicked {
            self.completed = self.completed.saturating_add(1);
        }
        job.remaining = job.remaining - 1;
    }

    /// Whether to wait one cadence period before the next iteration.
    pub fn wait_before_next(&self, job: &ClickJob) -> (r: bool)
        ensures
            r == (self.running && job.remaining > 0),
    {
        self.running && job.remaining > 0
    }

    /// Requests a stop; a running job halts at its next iteration boundary.
    pub fn stop(&mut self)
        ensures
            !final(self).running,
            final(self).completed == old(self).completed,
    {
        self.running = false;
    }

    /// Resets the click counter.
    pub fn reset_counter(&mut self)
        ensures
            final(self).completed == 0,
            final(self).running == old(self).running,
    {
        self.completed = 0;
    }

    /// Runs `job` with the click outcomes given in order, one per iteration,
    /// while an external stop lands after `stop_after` iterations (never,
    /// when that is at least the budget). The counter grows by the successes
    /// of the iterations run, saturating, and so never falls and never grows
    /// by more than the budget.
    pub fn run_until_stop(&mut self, job: &mut ClickJob, outcomes: &Vec<bool>, stop_after: u32)
        requires
            old(self).running,
            outcomes@.len() >= old(job).remaining,
        ensures
            final(job).target == old(job).target,
            final(job).button == old(job).button,
            final(job).cadence_millis == old(job).cadence_millis,
            !final(self).running,
            final(job).remaining == old(job).remaining - iterations_run(old(job).remaining, stop_after),
            final(self).completed == saturate(
                old(self).completed + successes(
                    outcomes@.take(iterations_run(old(job).remaining, stop_after) as int),
                ),
            ),
            old(self).completed <= final(self).completed <= old(self).completed + old(job).remaining,
    {
        let n = job.remaining;
        let start = self.completed;
        let mut i: u32 = 0;
        if stop_after == 0 {
            self.stop();
        }
        loop
            invariant_except_break
                self.running == (i < stop_after),
            invariant
                i + job.remaining == n,
                n <= outcomes@.len(),
                i <= iterations_run(n, stop_after),
                job.target == old(job).target,
                job.button == old(job).button,
                job.cadence_millis == old(job).cadence_millis,
                self.completed == saturate(start + successes(outcomes@.take(i as int))),
            ensures
                !self.running,
                i == iterations_run(n, stop_after),
            decreases job.remaining,
        {
            if self.next_action(job) == JobAction::Finished {
                break;
            }
            assert(outcomes@.take(i as int + 1).drop_last() =~= outcomes@.take(i as int));
            self.record_attempt(job, outcomes[i as usize]);
            i = i + 1;
            if i >= stop_after {
                self.stop();
            }
        }
        proof {
            lemma_successes_bound(outcomes@.take(i as int));
        }
    }

    /// Runs `job` to its end with the click outcomes given in order, one per
    /// iteration, with no external stop.
    pub fn run_with_outcomes(&mut self, job: &mut ClickJob, outcomes: &Vec<bool>)
        requires
            old(self).running,
            outcomes@.len() >= old(job).remaining,
        ensures
            final(job).target == old(job).target,
            final(job).button == old(job).button,
            final(job).cadence_millis == old(job).cadence_millis,
            !final(self).running,
            final(job).remaining == 0,
            final(self).completed == saturate(
                old(self).completed + successes(outcomes@.take(old(job).remaining as int)),
            ),
    {
        let n = job.remaining;
        self.run_until_stop(job, outcomes, n);
    }
}

/// The number of iterations a job of budget `n` runs when a stop lands after
/// `stop_after` iterations.
pub open spec fn iterations_run(n: u32, stop_after: u32) -> nat {
    if stop_after < n { stop_after as nat } else { n as nat }
}

/// A count held in the counter, which saturates at its maximum.
pub open spec fn saturate(v: int) -> u64 {
    if v <= u64::MAX { v as u64 } else { u64::MAX }
}

/// The number of successes is at most the number of outcomes.
pub proof fn lemma_successes_bound(outcomes: Seq<bool>)
    ensures
        successes(outcomes) <= outcomes.len(),
    decreases outcomes.len(),
{
    if outcomes.len() > 0 {
        lemma_successes_bound(outcomes.drop_last());
    }
}

/// When every click succeeds, a job of N iterations adds exactly N.
pub proof fn lemma_all_succeed(outcomes: Seq<bool>)
    requires
        forall|i: int| 0 <= i < outcomes.len() ==> #[trigger] outcomes[i],
    ensures
        successes(outcomes) == outcomes.len(),
    decreases outcomes.len(),
{
    if outcomes.len() > 0 {
        lemma_all_succeed(outcomes.drop_last());
    }
}

/// When every click fails, the counter is unchanged.
pub proof fn lemma_all_fail(outcomes: Seq<bool>)
    requires
        forall|i: int| 0 <= i < outcomes.len() ==> !#[trigger] outcomes[i],
    ensures
        successes(outcomes) == 0,
    decreases outcomes.len(),
{
    if outcomes.len() > 0 {
        lemma_all_fail(outcomes.drop_last());
    }
}

/// A job of budget `n` whose clicks all succeed adds exactly `n` to the
/// counter, when the counter has room for them.
pub proof fn lemma_job_all_succeed_adds_budget(start: u64, outcomes: Seq<bool>, n: u32)
    requires
        n <= outcomes.len(),
        forall|i: int| 0 <= i < n ==> #[trigger] outcomes[i],
        start + n <= u64::MAX,
    ensures
        saturate(start + successes(outcomes.take(n as int))) == start + n,
{
    lemma_all_succeed(outcomes.take(n as int));
}

/// A job of budget `n` whose clicks all fail leaves the counter unchanged.
pub proof fn lemma_job_all_fail_keeps_counter(start: u64, outcomes: Seq<bool>, n: u32)
    requires
        n <= outcomes.len(),
        forall|i: int| 0 <= i < n ==> !#[trigger] outcomes[i],
    ensures
        saturate(start + successes(outcomes.take(n as int))) == start,
{
    lemma_all_fail(outcomes.take(n as int));
}

} // verus!
