//! Sample sinks and the tracks they produce.
//!
//! A sink is the per-device destination of the capture callback: it counts
//! the samples streamed to its file and is finalized exactly once, yielding a
//! track. The bytes themselves go to disk in the surrounding process; the
//! sink holds what the stop coordinator decides by: the path and the count.

use vstd::prelude::*;

use crate::error::RecordError;
use crate::format::WavSpec;

verus! {

/// A finalized audio file and its sample count.
#[derive(Debug)]
pub struct Track {
    pub path: String,
    pub sample_count: u64,
}

/// The per-device destination that accumulates samples during recording.
pub struct SampleSink {
    pub path: String,
    pub format: WavSpec,
    pub samples_written: u64,
    pub finalized: bool,
}

impl SampleSink {
    /// Opens a fresh sink: nothing written, not finalized.
    pub fn new(path: String, format: WavSpec) -> (r: Self)
        ensures
            r.path == path,
            r.format == format,
            r.samples_written == 0,
            !r.finalized,
    {
        SampleSink { path, format, samples_written: 0, finalized: false }
    }

    /// Accepts a buffer of `count` samples: a best-effort append that is a
    /// no-op once the sink is finalized.
    pub fn write(&mut self, count: u64)
        requires
            old(self).samples_written + count <= u64::MAX,
        ensures
            old(self).finalized ==> *final(self) == *old(self),
            !old(self).finalized ==> *final(self) == (SampleSink {
                samples_written: (old(self).samples_written + count) as u64,
                ..*old(self)
            }),
    {
        if !self.finalized {
            self.samples_written = self.samples_written + count;
        }
    }

    /// Moves the sink to its terminal state and hands out its track; a second
    /// call is an error and changes nothing but having been asked.
    pub fn finalize(&mut self) -> (r: Result<Track, RecordError>)
        ensures
            old(self).finalized ==> r == Err::<Track, RecordError>(RecordError::AlreadyFinalized)
                && *final(self) == *old(self),
            !old(self).finalized ==> {
                &&& final(self).finalized
                &&& final(self).path == old(self).path
                &&& final(self).format == old(self).format
                &&& final(self).samples_written == old(self).samples_written
                &&& r matches Ok(t) && t.path == old(self).path && t.sample_count == old(
                    self,
                ).samples_written
            },
    {
        if self.finalized {
            Err(RecordError::AlreadyFinalized)
        } else {
            self.finalized = true;
            Ok(Track { path: self.path.clone(), sample_count: self.samples_written })
        }
    }
}

} // verus!
