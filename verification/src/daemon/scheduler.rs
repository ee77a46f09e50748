//! The periodic scheduler's run flag, shared with handles that stop it.
use vstd::prelude::*;

use std::sync::atomic::AtomicBool;
use std::sync::Arc;

pub use crate::daemon::schedule::Schedule;

verus! {

/// Runs a task at a fixed interval until stopped.
pub struct Scheduler {
    interval_seconds: u64,
    running: Arc<AtomicBool>,
}

/// Stops a scheduler from elsewhere; it shares the scheduler's run flag.
pub struct SchedulerHandle {
    running: Arc<AtomicBool>,
}

/// Calls `Arc::clone`: the copy points at the same flag.
#[verifier::external_body]
fn share_flag(flag: &Arc<AtomicBool>) -> (r: Arc<AtomicBool>)
    ensures
        r == *flag,
{
    Arc::clone(flag)
}

impl Scheduler {
    /// The interval in seconds.
    pub closed spec fn interval(&self) -> u64 {
        self.interval_seconds
    }

    /// The shared run flag.
    pub closed spec fn flag(&self) -> Arc<AtomicBool> {
        self.running
    }

    /// A stopped scheduler with the given interval.
    pub fn new(interval_seconds: u64) -> (r: Self)
        ensures
            r.interval() == interval_seconds,
    {
        Scheduler { interval_seconds, running: Arc::new(AtomicBool::new(false)) }
    }

    /// Marks the scheduler as running.
    pub fn mark_running(&self) {
        self.running.store(true, std::sync::atomic::Ordering::SeqCst);
    }

    /// Asks the scheduler to stop after the current run.
    pub fn stop(&self) {
        self.running.store(false, std::sync::atomic::Ordering::SeqCst);
    }

    /// Whether the scheduler is running.
    pub fn is_running(&self) -> bool {
        self.running.load(std::sync::atomic::Ordering::SeqCst)
    }

    /// The interval in seconds.
    pub fn interval_seconds(&self) -> (r: u64)
        ensures
            r == self.interval(),
    {
        self.interval_seconds
    }

    /// A handle that stops this scheduler.
    pub fn stop_handle(&self) -> (r: SchedulerHandle)
        ensures
            r.flag() == self.flag(),
    {
        SchedulerHandle { running: share_flag(&self.running) }
    }
}

impl SchedulerHandle {
    /// The shared run flag.
    pub closed spec fn flag(&self) -> Arc<AtomicBool> {
        self.running
    }

    /// Asks the scheduler to stop.
    pub fn stop(&self) {
        self.running.store(false, std::sync::atomic::Ordering::SeqCst);
    }

    /// Whether the scheduler is running.
    pub fn is_running(&self) -> bool {
        self.running.load(std::sync::atomic::Ordering::SeqCst)
    }
}

impl Clone for SchedulerHandle {
    /// A second handle on the same scheduler.
    fn clone(&self) -> (r: Self)
        ensures
            r.flag() == self.flag(),
    {
        SchedulerHandle { running: share_flag(&self.running) }
    }
}

} // verus!
