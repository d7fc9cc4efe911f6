//! Handing index build tasks to a scheduler.
use vstd::prelude::*;

use crate::backend::Backend;
use crate::task::{IndexBuildJob, IndexBuildTask};

verus! {

/// Runs jobs of one kind.
///
/// A scheduler is borrowed mutably for each call, so that its state tells which jobs were handed
/// to it, and in which order: nothing else here can bring it into another state.
pub trait Scheduler<J> {
    /// Why a job was refused.
    type Error;

    /// Takes `job`, or says why not.
    fn schedule(&mut self, job: J) -> Result<(), Self::Error>;
}

/// Schedules index builds with `S`.
pub struct IndexBuildScheduler<S> {
    /// The scheduler.
    pub scheduler: S,
}

impl<S: Clone> Clone for IndexBuildScheduler<S> {
    fn clone(&self) -> (this: Self)
        ensures
            cloned(self.scheduler, this.scheduler),
    {
        IndexBuildScheduler { scheduler: self.scheduler.clone() }
    }
}

impl<S> IndexBuildScheduler<S> {
    /// Schedules index builds with `scheduler`.
    pub fn new(scheduler: S) -> (this: Self)
        ensures
            this.scheduler == scheduler,
    {
        IndexBuildScheduler { scheduler }
    }

    /// Hands the job of `task` to the scheduler, once, and returns its answer: the one call takes
    /// the scheduler from the state before to the state after.
    pub fn schedule_build<B: Backend, I>(&mut self, task: IndexBuildTask<B, I>) -> (result: Result<
        (),
        S::Error,
    >) where S: Scheduler<IndexBuildJob<B, I>>
        ensures
            exists|call: &mut S|
                {
                    &&& *call == old(self).scheduler
                    &&& *final(call) == final(self).scheduler
                    &&& #[trigger] call_ensures(S::schedule, (call, IndexBuildJob { task }), result)
                },
    {
        let job = task.into_index_build_job();
        self.scheduler.schedule(job)
    }
}

} // verus!
