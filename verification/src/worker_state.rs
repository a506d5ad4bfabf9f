//! The worker's switch for claiming new jobs, shared by all its loops.

use vstd::prelude::*;
use std::sync::Arc;
use std::sync::atomic::AtomicBool;
use std::sync::atomic::Ordering;

verus! {

/// Whether the worker still claims new jobs. Clones share one switch; once
/// turned off it is never turned on again.
#[derive(Clone)]
pub struct WorkerState {
    accepting_work: Arc<AtomicBool>,
}

impl WorkerState {
    /// A worker that claims jobs: the shared switch starts on. The value
    /// inside a std atomic is not visible to the verifier, so no clause
    /// states it.
    pub fn new() -> (s: Self) {
        WorkerState { accepting_work: Arc::new(AtomicBool::new(true)) }
    }

    /// Whether claiming is still on. The switch is shared with other tasks,
    /// so the answer is a snapshot: nothing here fixes its value.
    pub fn is_accepting_work(&self) -> (accepting: bool) {
        self.accepting_work.load(Ordering::SeqCst)
    }

    /// Turns claiming off for every clone.
    pub fn stop_claiming(&self) {
        self.accepting_work.store(false, Ordering::SeqCst);
    }
}

} // verus!
