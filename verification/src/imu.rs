//! The IMU stream: a poll-based source of timestamped motion samples,
//! borrowing its device for its whole lifetime.

use vstd::prelude::*;
use crate::device::Device;
use crate::error::Error;
use crate::runtime::{NativeRuntime, PollOutcome, spec_advanced_clock};

verus! {

/// One motion sample.
#[derive(Clone, Copy, Debug, PartialEq, Eq, Structural)]
pub struct ImuSample {
    /// Timestamp of the accelerometer reading, in milliseconds of the
    /// runtime clock.
    pub acc_timestamp_ms: u64,
    /// Timestamp of the gyroscope reading, in milliseconds of the runtime
    /// clock.
    pub gyro_timestamp_ms: u64,
}

/// A running IMU stream. It borrows the device that produced it for its
/// whole lifetime, so the device cannot be closed while the stream lives;
/// stopping the stream consumes it and releases the borrow.
pub struct Imu<'a> {
    pub device: &'a Device,
}

impl<'a> Imu<'a> {
    pub(crate) fn new(device: &'a Device, rt: &mut NativeRuntime) -> (r: Result<Imu<'a>, Error>)
        ensures
            if old(rt).behavior.start_imu_succeeds && !old(rt).imu_running {
                r is Ok && *final(rt) == (NativeRuntime { imu_running: true, ..*old(rt) })
            } else {
                r == Err::<Imu<'a>, Error>(Error::Failed) && *final(rt) == *old(rt)
            },
    {
        if rt.behavior.start_imu_succeeds && !rt.imu_running {
            rt.imu_running = true;
            Ok(Imu { device })
        } else {
            Err(Error::Failed)
        }
    }

    /// Reads one IMU sample, blocking for at most `timeout_in_ms`. A
    /// `Timeout` error means no sample was available within the window, for
    /// every window length including zero; it is retried by callers, never
    /// fatal.
    pub fn get_imu_sample(&self, rt: &mut NativeRuntime, timeout_in_ms: i32) -> (r: Result<
        ImuSample,
        Error,
    >)
        ensures
            final(rt).imu == old(rt).imu.spec_stepped(),
            old(rt).imu.spec_next() == PollOutcome::Frame ==> final(rt).imu.pos == old(
                rt,
            ).imu.pos + 1,
            final(rt).imu.pos >= old(rt).imu.pos,
            final(rt).clock_ms == spec_advanced_clock(old(rt).clock_ms, timeout_in_ms),
            final(rt).captures == old(rt).captures,
            final(rt).ledger == old(rt).ledger,
            final(rt).cameras_running == old(rt).cameras_running,
            final(rt).imu_running == old(rt).imu_running,
            final(rt).color_controls == old(rt).color_controls,
            final(rt).behavior == old(rt).behavior,
            match r {
                Ok(s) => old(rt).imu.spec_next() == PollOutcome::Frame && s.acc_timestamp_ms
                    == final(rt).clock_ms && s.gyro_timestamp_ms == final(rt).clock_ms,
                Err(e) => (e == Error::Timeout || e == Error::Failed)
                    && (e == Error::Timeout <==> old(rt).imu.spec_next() == PollOutcome::Timeout)
                    && (e == Error::Failed <==> old(rt).imu.spec_next() == PollOutcome::Failed),
            },
    {
        let outcome = self.imu_poll(rt);
        rt.advance_clock(timeout_in_ms);
        match outcome {
            PollOutcome::Frame => Ok(
                ImuSample { acc_timestamp_ms: rt.clock_ms, gyro_timestamp_ms: rt.clock_ms },
            ),
            PollOutcome::Timeout => Err(Error::Timeout),
            PollOutcome::Failed => Err(Error::Failed),
        }
    }

    /// Reads one IMU sample, blocking until data or a fatal error.
    pub fn get_imu_sample_wait_infinite(&self, rt: &mut NativeRuntime) -> (r: Result<
        ImuSample,
        Error,
    >)
        ensures
            final(rt).imu == old(rt).imu.spec_stepped(),
            final(rt).clock_ms == old(rt).clock_ms,
            final(rt).captures == old(rt).captures,
            final(rt).ledger == old(rt).ledger,
            final(rt).cameras_running == old(rt).cameras_running,
            final(rt).imu_running == old(rt).imu_running,
            final(rt).color_controls == old(rt).color_controls,
            final(rt).behavior == old(rt).behavior,
            r is Ok <==> old(rt).imu.spec_next() == PollOutcome::Frame,
    {
        self.get_imu_sample(rt, -1)
    }

    fn imu_poll(&self, rt: &mut NativeRuntime) -> (r: PollOutcome)
        ensures
            r == old(rt).imu.spec_next(),
            *final(rt) == (NativeRuntime { imu: old(rt).imu.spec_stepped(), ..*old(rt) }),
            old(rt).imu.pos < old(rt).imu.events@.len() ==> final(rt).imu.pos == old(rt).imu.pos
                + 1,
    {
        rt.imu.next()
    }

    /// Stops the IMU stream, exactly once: the stream is consumed, and the
    /// borrow of the device ends with it.
    pub fn stop(self, rt: &mut NativeRuntime)
        ensures
            *final(rt) == (NativeRuntime { imu_running: false, ..*old(rt) }),
    {
        rt.imu_running = false;
    }
}

} // verus!
