//! The recorder's error taxonomy.

use vstd::prelude::*;

verus! {

/// Everything that can go wrong while recording.
#[derive(Clone, Copy, PartialEq, Eq, Structural, Debug)]
pub enum RecordError {
    /// A recording session is already active; the request is a no-op.
    AlreadyRecording,
    /// A device's negotiated encoding is none of the supported ones; `start`
    /// fails before any stream is opened.
    UnsupportedFormat,
    /// A toggle found no prior configuration and no default devices.
    NoDefaultDevice,
    /// A shared slot was momentarily held; the write or notification was
    /// skipped rather than waited for.
    LockContention,
    /// A sink was asked to finalize a second time.
    AlreadyFinalized,
    /// The stop coordinator got a number of tracks its selection policy does
    /// not cover: none at all, or more than two.
    UnsupportedTrackCount,
    /// Track creation, merge, normalization or relocation failed in the
    /// surrounding process.
    IoFailure,
}

} // verus!
