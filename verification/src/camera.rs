//! The camera stream: a poll-based source of captures, borrowing its device
//! for its whole lifetime.

use vstd::prelude::*;
use crate::capture::Capture;
use crate::device::Device;
use crate::error::Error;
use crate::imu::Imu;
use crate::runtime::{NativeRuntime, PollOutcome, spec_advanced_clock};

verus! {

/// A running camera stream. It borrows the device that produced it for its
/// whole lifetime, so the device cannot be closed while the stream lives;
/// stopping the stream consumes it and releases the borrow.
pub struct Camera<'a> {
    pub device: &'a Device,
}

impl<'a> Camera<'a> {
    pub(crate) fn new(device: &'a Device, rt: &mut NativeRuntime) -> (r: Result<Camera<'a>, Error>)
        ensures
            if old(rt).behavior.start_cameras_succeeds && !old(rt).cameras_running {
                r is Ok && *final(rt) == (NativeRuntime { cameras_running: true, ..*old(rt) })
            } else {
                r == Err::<Camera<'a>, Error>(Error::Failed) && *final(rt) == *old(rt)
            },
    {
        if rt.behavior.start_cameras_succeeds && !rt.cameras_running {
            rt.cameras_running = true;
            Ok(Camera { device })
        } else {
            Err(Error::Failed)
        }
    }

    /// Reads one capture, blocking for at most `timeout_in_ms`. A `Timeout`
    /// error means no new frame was available within the window, for every
    /// window length including zero; it is retried by callers, never fatal.
    /// A fresh frame arrives as a capture handle with one reference held on
    /// its behalf.
    pub fn get_capture(&self, rt: &mut NativeRuntime, timeout_in_ms: i32) -> (r: Result<
        Capture,
        Error,
    >)
        ensures
            final(rt).captures == old(rt).captures.spec_stepped(),
            old(rt).captures.spec_next() == PollOutcome::Frame ==> final(rt).captures.pos == old(
                rt,
            ).captures.pos + 1,
            final(rt).captures.pos >= old(rt).captures.pos,
            final(rt).clock_ms == spec_advanced_clock(old(rt).clock_ms, timeout_in_ms),
            final(rt).imu == old(rt).imu,
            final(rt).cameras_running == old(rt).cameras_running,
            final(rt).imu_running == old(rt).imu_running,
            final(rt).color_controls == old(rt).color_controls,
            final(rt).behavior == old(rt).behavior,
            match r {
                Ok(c) => old(rt).captures.spec_next() == PollOutcome::Frame
                    && final(rt).ledger@ == old(rt).ledger@.push(1u64)
                    && c.handle.spec_id() == old(rt).ledger.spec_len()
                    && c.live_in(final(rt))
                    && final(rt).ledger.spec_count(c.handle.spec_id()) == 1,
                Err(e) => final(rt).ledger == old(rt).ledger
                    && (e == Error::Timeout || e == Error::Failed)
                    && (e == Error::Timeout <==> old(rt).captures.spec_next() == PollOutcome::Timeout)
                    && (e == Error::Failed <==> old(rt).captures.spec_next() == PollOutcome::Failed),
            },
    {
        let outcome = rt.captures.next();
        rt.advance_clock(timeout_in_ms);
        match outcome {
            PollOutcome::Frame => {
                let handle = rt.ledger.create();
                Ok(Capture { handle })
            },
            PollOutcome::Timeout => Err(Error::Timeout),
            PollOutcome::Failed => Err(Error::Failed),
        }
    }

    /// Reads one capture, blocking until data or a fatal error.
    pub fn get_capture_wait_infinite(&self, rt: &mut NativeRuntime) -> (r: Result<Capture, Error>)
        ensures
            final(rt).captures == old(rt).captures.spec_stepped(),
            final(rt).clock_ms == old(rt).clock_ms,
            final(rt).imu == old(rt).imu,
            final(rt).cameras_running == old(rt).cameras_running,
            final(rt).imu_running == old(rt).imu_running,
            final(rt).color_controls == old(rt).color_controls,
            final(rt).behavior == old(rt).behavior,
            r is Ok <==> old(rt).captures.spec_next() == PollOutcome::Frame,
    {
        self.get_capture(rt, -1)
    }

    /// Starts the IMU stream. The returned stream borrows the same device,
    /// and its stop call must come before the device can be closed.
    pub fn start_imu(&self, rt: &mut NativeRuntime) -> (r: Result<Imu<'a>, Error>)
        ensures
            if old(rt).behavior.start_imu_succeeds && !old(rt).imu_running {
                r is Ok && *final(rt) == (NativeRuntime { imu_running: true, ..*old(rt) })
            } else {
                r == Err::<Imu<'a>, Error>(Error::Failed) && *final(rt) == *old(rt)
            },
    {
        Imu::new(self.device, rt)
    }

    /// Stops the camera stream, exactly once: the stream is consumed, and
    /// the borrow of the device ends with it.
    pub fn stop(self, rt: &mut NativeRuntime)
        ensures
            *final(rt) == (NativeRuntime { cameras_running: false, ..*old(rt) }),
    {
        rt.cameras_running = false;
    }
}

} // verus!
