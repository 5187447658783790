//! Flags and counters shared between the hotkey handlers, the pipeline and
//! its background tasks. Their values change under other threads, so no
//! contract here speaks of what a read returns.
use vstd::prelude::*;

use std::sync::atomic::Ordering;
use std::sync::atomic::{AtomicBool, AtomicU64};
use std::sync::Arc;

verus! {

/// Counts overlay showings; a delayed hide applies only while the count is
/// the one it saw.
pub type OverlayGeneration = Arc<AtomicU64>;

/// Set while a recording is in progress.
pub type PipelineActive = Arc<AtomicBool>;

pub fn new_overlay_generation() -> OverlayGeneration {
    Arc::new(AtomicU64::new(0))
}

pub fn new_pipeline_active() -> PipelineActive {
    Arc::new(AtomicBool::new(false))
}

/// Set when starting a recording failed between the press and the release
/// of the hotkey, so that the release only hides the error.
pub struct PipelineErrorPending(pub Arc<AtomicBool>);

pub fn new_pipeline_error_pending() -> PipelineErrorPending {
    PipelineErrorPending(Arc::new(AtomicBool::new(false)))
}

/// Lets the user abort a running job.
#[derive(Debug, Clone)]
pub struct CancellationToken {
    flag: Arc<AtomicBool>,
}

impl CancellationToken {
    pub fn new() -> CancellationToken {
        CancellationToken { flag: Arc::new(AtomicBool::new(false)) }
    }

    pub fn cancel(&self) {
        self.flag.store(true, Ordering::SeqCst);
    }

    pub fn reset(&self) {
        self.flag.store(false, Ordering::SeqCst);
    }

    pub fn is_cancelled(&self) -> bool {
        self.flag.load(Ordering::SeqCst)
    }
}

} // verus!
