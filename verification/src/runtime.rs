//! The observable state of the native sensor runtime, as the library models
//! it: what each blocking poll will report, how the wall clock advances, the
//! reference counts of live capture handles, and which stream operations the
//! hardware will accept.
//!
//! Every blocking poll is bounded by its timeout, so the model clock
//! advances by the full poll window on each call; a poll's outcome is drawn
//! from a fixed script, one entry per call, and an exhausted script reports
//! timeouts from then on.

use vstd::prelude::*;
use crate::enums::{ColorControlCommand, ColorControlMode};
use crate::handle::{NativeResourceHandle, ResourceLedger};

verus! {

/// What one blocking poll reports.
#[derive(Clone, Copy, Debug, PartialEq, Eq, Structural)]
pub enum PollOutcome {
    /// New data was available within the window.
    Frame,
    /// No data arrived within the window; retried, not a defect.
    Timeout,
    /// A fatal native failure.
    Failed,
}

/// A scripted source of poll outcomes, consumed one entry per call.
pub struct PollScript {
    pub events: Vec<PollOutcome>,
    pub pos: usize,
}

impl PollScript {
    pub fn new(events: Vec<PollOutcome>) -> (r: PollScript)
        ensures
            r.events == events,
            r.pos == 0,
    {
        PollScript { events, pos: 0 }
    }

    /// The outcome the next poll will report.
    pub open spec fn spec_next(&self) -> PollOutcome {
        if self.pos < self.events@.len() {
            self.events@[self.pos as int]
        } else {
            PollOutcome::Timeout
        }
    }

    /// The script after one poll.
    pub open spec fn spec_stepped(&self) -> PollScript {
        PollScript {
            events: self.events,
            pos: if self.pos < self.events@.len() && self.pos < usize::MAX {
                (self.pos + 1) as usize
            } else {
                self.pos
            },
        }
    }

    pub fn next(&mut self) -> (r: PollOutcome)
        ensures
            r == old(self).spec_next(),
            *final(self) == old(self).spec_stepped(),
            old(self).pos < old(self).events@.len() ==> final(self).pos == old(self).pos + 1,
            final(self).pos >= old(self).pos,
    {
        if self.pos < self.events.len() {
            let r = self.events[self.pos];
            self.pos = self.pos + 1;
            r
        } else {
            PollOutcome::Timeout
        }
    }
}

/// How many `Frame` outcomes a script delivers over the positions
/// `from..to`, counting only positions inside the script.
pub open spec fn spec_frames_in(events: Seq<PollOutcome>, from: int, to: int) -> int
    decreases to - from,
{
    if from >= to {
        0
    } else {
        spec_frames_in(events, from, to - 1) + (if 0 <= to - 1 < events.len() && events[to - 1]
            == PollOutcome::Frame {
            1int
        } else {
            0int
        })
    }
}

/// One color-control write the hardware accepted.
#[derive(Clone, Copy, Debug, PartialEq, Eq, Structural)]
pub struct ColorControlWrite {
    pub command: ColorControlCommand,
    pub mode: ColorControlMode,
    pub value: i32,
}

/// Which stream operations the hardware will accept, fixed for a run.
#[derive(Clone, Copy, Debug, PartialEq, Eq, Structural)]
pub struct RuntimeBehavior {
    /// Whether `start_cameras` is accepted (a rejected configuration).
    pub start_cameras_succeeds: bool,
    /// Whether `start_imu` is accepted.
    pub start_imu_succeeds: bool,
    /// Whether color-control writes are accepted.
    pub color_control_succeeds: bool,
    /// Whether writes into a recording sink reach the disk.
    pub sink_writes_succeed: bool,
}

/// The evolving state of the native runtime over one run.
pub struct NativeRuntime {
    /// Reference counts of the capture handles the runtime has produced.
    pub ledger: ResourceLedger,
    /// What each camera poll will report, in order.
    pub captures: PollScript,
    /// What each IMU poll will report, in order.
    pub imu: PollScript,
    /// The wall clock, in milliseconds.
    pub clock_ms: u64,
    /// Whether a camera stream is currently running.
    pub cameras_running: bool,
    /// Whether the IMU stream is currently running.
    pub imu_running: bool,
    /// The color-control writes the hardware has accepted, in order.
    pub color_controls: Vec<ColorControlWrite>,
    /// Which operations the hardware accepts.
    pub behavior: RuntimeBehavior,
}

/// The clock after a blocking call bounded by `timeout_in_ms`; a negative
/// timeout means an unbounded wait, modelled as no measured advance.
pub open spec fn spec_advanced_clock(clock_ms: u64, timeout_in_ms: i32) -> u64 {
    if timeout_in_ms <= 0 {
        clock_ms
    } else if clock_ms + timeout_in_ms as int <= u64::MAX {
        (clock_ms + timeout_in_ms) as u64
    } else {
        u64::MAX
    }
}

impl NativeRuntime {
    pub fn new(
        capture_events: Vec<PollOutcome>,
        imu_events: Vec<PollOutcome>,
        behavior: RuntimeBehavior,
    ) -> (r: NativeRuntime)
        ensures
            r.ledger.spec_len() == 0,
            r.captures.events == capture_events,
            r.captures.pos == 0,
            r.imu.events == imu_events,
            r.imu.pos == 0,
            r.clock_ms == 0,
            !r.cameras_running,
            !r.imu_running,
            r.color_controls@ == Seq::<ColorControlWrite>::empty(),
            r.behavior == behavior,
    {
        NativeRuntime {
            ledger: ResourceLedger::new(),
            captures: PollScript::new(capture_events),
            imu: PollScript::new(imu_events),
            clock_ms: 0,
            cameras_running: false,
            imu_running: false,
            color_controls: Vec::new(),
            behavior,
        }
    }

    /// Lets the wall clock run for a blocking call's window.
    pub fn advance_clock(&mut self, timeout_in_ms: i32)
        ensures
            *final(self) == (NativeRuntime {
                clock_ms: spec_advanced_clock(old(self).clock_ms, timeout_in_ms),
                ..*old(self)
            }),
    {
        if timeout_in_ms > 0 {
            self.clock_ms = match self.clock_ms.checked_add(timeout_in_ms as u64) {
                Some(t) => t,
                None => u64::MAX,
            };
        }
    }
}

} // verus!
