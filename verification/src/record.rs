//! The recording sink: an opaque on-disk container reached only through
//! track declaration, header write, capture/sample writes, flush and close.
//!
//! The sink moves through a strict sequence of phases: tracks are declared
//! first, then the header is written exactly once, then captures and IMU
//! samples any number of times; a flush makes the writes durable, and the
//! final close ends the sink's life. The phase discipline is enforced by
//! preconditions, so no write can precede the header and no write can follow
//! the close.

use vstd::prelude::*;
use crate::capture::Capture;
use crate::error::Error;
use crate::imu::ImuSample;

verus! {

/// Where a sink stands in its life.
#[derive(Clone, Copy, Debug, PartialEq, Eq, Structural)]
pub enum RecordPhase {
    /// Created; tracks may still be declared.
    Declared,
    /// The header has been written; data writes may begin.
    HeaderWritten,
    /// At least one capture or sample has been written.
    Writing,
    /// All pending data has been flushed to disk.
    Flushed,
    /// The sink is closed; nothing more may happen to it.
    Closed,
}

/// An open recording sink and the history a run leaves in it.
pub struct Record {
    pub phase: RecordPhase,
    /// Whether the header write has happened.
    pub header_written: bool,
    /// Whether a flush has happened.
    pub flushed: bool,
    /// Whether the IMU track was declared before the header.
    pub imu_track_declared: bool,
    /// How many captures have been written.
    pub captures_written: u64,
    /// How many IMU samples have been written.
    pub imu_samples_written: u64,
    /// Whether writes reach the disk; fixed when the sink is created.
    pub media_ok: bool,
}

impl Record {
    /// A durable recording: closed, flushed before the close, header on
    /// disk.
    pub open spec fn is_durable(&self) -> bool {
        self.phase == RecordPhase::Closed && self.flushed && self.header_written
    }

    /// Whether data writes are currently legal.
    pub open spec fn accepts_writes(&self) -> bool {
        self.phase == RecordPhase::HeaderWritten || self.phase == RecordPhase::Writing
    }

    /// A freshly created sink: no tracks declared, nothing written.
    pub open spec fn new_spec(media_ok: bool) -> Record {
        Record {
            phase: RecordPhase::Declared,
            header_written: false,
            flushed: false,
            imu_track_declared: false,
            captures_written: 0,
            imu_samples_written: 0,
            media_ok,
        }
    }

    pub(crate) fn new(media_ok: bool) -> (r: Record)
        ensures
            r == Record::new_spec(media_ok),
            r == (Record {
                phase: RecordPhase::Declared,
                header_written: false,
                flushed: false,
                imu_track_declared: false,
                captures_written: 0,
                imu_samples_written: 0,
                media_ok,
            }),
    {
        Record {
            phase: RecordPhase::Declared,
            header_written: false,
            flushed: false,
            imu_track_declared: false,
            captures_written: 0,
            imu_samples_written: 0,
            media_ok,
        }
    }

    /// Adds the track header for recording IMU samples. Tracks can only be
    /// declared before the header is written.
    pub fn add_imu_track(&mut self) -> (r: Result<(), Error>)
        requires
            old(self).phase == RecordPhase::Declared,
        ensures
            old(self).media_ok ==> r == Ok::<(), Error>(()) && *final(self) == (Record {
                imu_track_declared: true,
                ..*old(self)
            }),
            !old(self).media_ok ==> r == Err::<(), Error>(Error::Failed) && *final(self) == *old(self),
    {
        if self.media_ok {
            self.imu_track_declared = true;
            Ok(())
        } else {
            Err(Error::Failed)
        }
    }

    /// Writes the recording header and metadata to the file, exactly once,
    /// after all track declarations.
    pub fn write_header(&mut self) -> (r: Result<(), Error>)
        requires
            old(self).phase == RecordPhase::Declared,
        ensures
            old(self).media_ok ==> r == Ok::<(), Error>(()) && *final(self) == (Record {
                phase: RecordPhase::HeaderWritten,
                header_written: true,
                ..*old(self)
            }),
            !old(self).media_ok ==> r == Err::<(), Error>(Error::Failed) && *final(self) == *old(self),
    {
        if self.media_ok {
            self.phase = RecordPhase::HeaderWritten;
            self.header_written = true;
            Ok(())
        } else {
            Err(Error::Failed)
        }
    }

    /// Writes one camera capture to the file. Legal only after the header
    /// and before the close.
    pub fn write_capture(&mut self, capture: &Capture) -> (r: Result<(), Error>)
        requires
            old(self).accepts_writes(),
            old(self).captures_written < u64::MAX,
        ensures
            old(self).media_ok ==> r == Ok::<(), Error>(()) && *final(self) == (Record {
                phase: RecordPhase::Writing,
                captures_written: (old(self).captures_written + 1) as u64,
                ..*old(self)
            }),
            !old(self).media_ok ==> r == Err::<(), Error>(Error::Failed) && *final(self) == *old(self),
    {
        let _ = capture;
        if self.media_ok {
            self.phase = RecordPhase::Writing;
            self.captures_written = self.captures_written + 1;
            Ok(())
        } else {
            Err(Error::Failed)
        }
    }

    /// Writes one IMU sample to the file. Legal only after the header, and
    /// only when the IMU track was declared.
    pub fn write_imu_sample(&mut self, imu_sample: ImuSample) -> (r: Result<(), Error>)
        requires
            old(self).accepts_writes(),
            old(self).imu_track_declared,
            old(self).imu_samples_written < u64::MAX,
        ensures
            old(self).media_ok ==> r == Ok::<(), Error>(()) && *final(self) == (Record {
                phase: RecordPhase::Writing,
                imu_samples_written: (old(self).imu_samples_written + 1) as u64,
                ..*old(self)
            }),
            !old(self).media_ok ==> r == Err::<(), Error>(Error::Failed) && *final(self) == *old(self),
    {
        let _ = imu_sample;
        if self.media_ok {
            self.phase = RecordPhase::Writing;
            self.imu_samples_written = self.imu_samples_written + 1;
            Ok(())
        } else {
            Err(Error::Failed)
        }
    }

    /// Flushes all pending recording data to disk. Must precede the final
    /// close for the recording to be durable. On dead media the flush fails
    /// like every other write.
    pub fn flush(&mut self) -> (r: Result<(), Error>)
        requires
            old(self).phase != RecordPhase::Closed,
        ensures
            old(self).media_ok ==> r == Ok::<(), Error>(()),
            old(self).media_ok && old(self).header_written ==> *final(self) == (Record {
                phase: RecordPhase::Flushed,
                flushed: true,
                ..*old(self)
            }),
            old(self).media_ok && !old(self).header_written ==> *final(self) == *old(self),
            !old(self).media_ok ==> r == Err::<(), Error>(Error::Failed) && *final(self) == *old(self),
    {
        if !self.media_ok {
            return Err(Error::Failed);
        }
        if self.header_written {
            self.phase = RecordPhase::Flushed;
            self.flushed = true;
        }
        Ok(())
    }

    /// Closes the sink; it is consumed, so nothing can be written after the
    /// close. The closed sink is returned as the record of what the run
    /// wrote.
    pub fn close(self) -> (r: Record)
        ensures
            r == (Record { phase: RecordPhase::Closed, ..self }),
    {
        Record { phase: RecordPhase::Closed, ..self }
    }
}

} // verus!
