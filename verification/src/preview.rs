//! The handle of a running level preview.

use vstd::prelude::*;
use std::sync::atomic::{AtomicBool, Ordering};
use std::sync::Arc;

verus! {

/// Handle for a running audio preview that monitors input levels. The
/// preview thread watches the flag this handle shares with it.
pub struct AudioPreviewHandle {
    stop_flag: Arc<AtomicBool>,
}

impl AudioPreviewHandle {
    /// The flag this handle shares with its preview.
    pub closed spec fn flag(&self) -> Arc<AtomicBool> {
        self.stop_flag
    }

    /// The handle of the preview that watches `stop_flag`.
    pub fn new(stop_flag: Arc<AtomicBool>) -> (h: Self)
        ensures
            h.flag() == stop_flag,
    {
        AudioPreviewHandle { stop_flag }
    }

    /// Tells the preview to end. It does so at its next look at the flag.
    pub fn stop(&self) {
        self.stop_flag.store(true, Ordering::Relaxed);
    }

    /// Whether the preview has been told to end.
    pub fn is_stopped(&self) -> (stopped: bool) {
        self.stop_flag.load(Ordering::Relaxed)
    }
}

} // verus!
