//! The time reference store: a write-once holder of the absolute time
//! reference plus a coarse acquisition progress indicator.
//!
//! The sync task is the only writer; the render loop polls. The store's
//! narrow interface keeps the write-once discipline in one place: once a
//! reference is present it is never overwritten and never cleared.

use vstd::prelude::*;

use crate::timebase::TimeReference;

verus! {

/// Write-once holder of the absolute time reference, plus the acquisition
/// progress counter read while the reference is still absent.
pub struct ReferenceStore {
    reference: Option<TimeReference>,
    progress: u8,
}

impl ReferenceStore {
    /// The published reference, if any.
    pub closed spec fn reference_spec(self) -> Option<TimeReference> {
        self.reference
    }

    /// The acquisition progress stage recorded so far.
    pub closed spec fn progress_spec(self) -> u8 {
        self.progress
    }

    /// Progress is a small ordinal: one of the stages 0 through 4.
    pub open spec fn wf(self) -> bool {
        self.progress_spec() <= 4
    }

    /// An empty store: no reference, no progress.
    pub fn new() -> (r: ReferenceStore)
        ensures
            r.wf(),
            r.reference_spec() is None,
            r.progress_spec() == 0,
    {
        ReferenceStore { reference: None, progress: 0 }
    }

    /// Publish the time reference. Succeeds exactly once: the first call
    /// stores the reference; any later call is rejected, hands the offered
    /// value back, and leaves the store untouched — the first value is never
    /// silently overwritten.
    pub fn publish(&mut self, reference: TimeReference) -> (r: Result<(), TimeReference>)
        ensures
            old(self).reference_spec() is None ==> {
                &&& r is Ok
                &&& final(self).reference_spec() == Some(reference)
                &&& final(self).progress_spec() == old(self).progress_spec()
            },
            old(self).reference_spec() is Some ==> {
                &&& r == Err::<(), TimeReference>(reference)
                &&& *final(self) == *old(self)
            },
    {
        if self.reference.is_some() {
            Err(reference)
        } else {
            self.reference = Some(reference);
            Ok(())
        }
    }

    /// Read the reference without blocking; immediately returns the published
    /// value or nothing.
    pub fn try_read(&self) -> (r: Option<TimeReference>)
        ensures
            r == self.reference_spec(),
    {
        self.reference
    }

    /// Record an acquisition progress stage. Progress never goes backwards:
    /// the stored value becomes the larger of the old value and the stage.
    pub fn record_progress(&mut self, stage: u8)
        requires
            stage <= 4,
            old(self).wf(),
        ensures
            final(self).wf(),
            final(self).progress_spec() == if stage >= old(self).progress_spec() {
                stage
            } else {
                old(self).progress_spec()
            },
            final(self).reference_spec() == old(self).reference_spec(),
    {
        if stage >= self.progress {
            self.progress = stage;
        }
    }

    /// Read the progress stage.
    pub fn progress(&self) -> (r: u8)
        ensures
            r == self.progress_spec(),
    {
        self.progress
    }
}

} // verus!
