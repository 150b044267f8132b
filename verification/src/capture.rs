//! A capture: one synchronized bundle of sensor images, held through a
//! reference-counted native handle. Sharing a capture increments the native
//! count; dropping a capture releases one reference, and the bundle is freed
//! when the last reference goes.

use vstd::prelude::*;
use crate::handle::NativeResourceHandle;
use crate::runtime::NativeRuntime;

verus! {

/// One capture produced by a device-sampling event.
#[derive(Debug)]
pub struct Capture {
    pub handle: NativeResourceHandle,
}

impl Capture {
    /// Whether this capture is live in the runtime's ledger.
    pub open spec fn live_in(&self, rt: &NativeRuntime) -> bool {
        rt.ledger.holds(&self.handle)
    }
}

impl NativeRuntime {
    /// Shares a capture: one more reference is held on the same bundle.
    pub fn reference_capture(&mut self, capture: &Capture) -> (r: Capture)
        requires
            capture.live_in(old(self)),
            old(self).ledger.spec_count(capture.handle.spec_id()) < u64::MAX,
        ensures
            r.handle.spec_id() == capture.handle.spec_id(),
            final(self).ledger@ == old(self).ledger@.update(
                capture.handle.spec_id(),
                (old(self).ledger@[capture.handle.spec_id()] + 1) as u64,
            ),
            final(self).ledger.spec_count(capture.handle.spec_id())
                == old(self).ledger.spec_count(capture.handle.spec_id()) + 1,
            final(self).captures == old(self).captures,
            final(self).imu == old(self).imu,
            final(self).clock_ms == old(self).clock_ms,
            final(self).cameras_running == old(self).cameras_running,
            final(self).imu_running == old(self).imu_running,
            final(self).color_controls == old(self).color_controls,
            final(self).behavior == old(self).behavior,
    {
        let handle = self.ledger.share(&capture.handle);
        Capture { handle }
    }

    /// Drops a capture: one reference is released, and the bundle is freed
    /// exactly when the count reaches zero.
    pub fn release_capture(&mut self, capture: Capture) -> (freed: bool)
        requires
            capture.live_in(old(self)),
        ensures
            final(self).ledger@ == old(self).ledger@.update(
                capture.handle.spec_id(),
                (old(self).ledger@[capture.handle.spec_id()] - 1) as u64,
            ),
            final(self).ledger.spec_count(capture.handle.spec_id())
                == old(self).ledger.spec_count(capture.handle.spec_id()) - 1,
            freed <==> final(self).ledger.spec_count(capture.handle.spec_id()) == 0,
            final(self).captures == old(self).captures,
            final(self).imu == old(self).imu,
            final(self).clock_ms == old(self).clock_ms,
            final(self).cameras_running == old(self).cameras_running,
            final(self).imu_running == old(self).imu_running,
            final(self).color_controls == old(self).color_controls,
            final(self).behavior == old(self).behavior,
    {
        self.ledger.release(capture.handle)
    }
}

} // verus!
