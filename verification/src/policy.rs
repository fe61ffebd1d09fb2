//! The stop coordinator's track selection policy.
//!
//! After every sink is finalized the coordinator holds one track per capture
//! path and must decide what the pipeline normalizes. One track is used as it
//! is. Of two tracks, both are merged when both actually received samples;
//! otherwise the one with the larger count wins, the second on a tie. The
//! policy prefers a track that received audio, because opening a stream can
//! succeed while the device delivers nothing. More than two simultaneous
//! tracks are outside the merge policy and are rejected.

use vstd::prelude::*;

use crate::error::RecordError;
use crate::sink::Track;

verus! {

/// What the pipeline takes as its input.
#[derive(Clone, Copy, PartialEq, Eq, Structural, Debug)]
pub enum OutputSelection {
    /// Use the track at this index of the coordinator's track list.
    Use { index: usize },
    /// Merge the first and second track, aligned from sample zero.
    MergeBoth,
}

/// The selection the policy makes on `tracks`.
pub open spec fn output_selection_spec(tracks: Seq<Track>) -> Result<
    OutputSelection,
    RecordError,
> {
    if tracks.len() == 1 {
        Ok(OutputSelection::Use { index: 0 })
    } else if tracks.len() == 2 {
        if tracks[0].sample_count > 0 && tracks[1].sample_count > 0 {
            Ok(OutputSelection::MergeBoth)
        } else if tracks[0].sample_count > tracks[1].sample_count {
            Ok(OutputSelection::Use { index: 0 })
        } else {
            Ok(OutputSelection::Use { index: 1 })
        }
    } else {
        Err(RecordError::UnsupportedTrackCount)
    }
}

/// Selects the pipeline's input among the finalized tracks.
pub fn select_output(tracks: &Vec<Track>) -> (r: Result<OutputSelection, RecordError>)
    ensures
        r == output_selection_spec(tracks@),
{
    if tracks.len() == 1 {
        Ok(OutputSelection::Use { index: 0 })
    } else if tracks.len() == 2 {
        if tracks[0].sample_count > 0 && tracks[1].sample_count > 0 {
            Ok(OutputSelection::MergeBoth)
        } else if tracks[0].sample_count > tracks[1].sample_count {
            Ok(OutputSelection::Use { index: 0 })
        } else {
            Ok(OutputSelection::Use { index: 1 })
        }
    } else {
        Err(RecordError::UnsupportedTrackCount)
    }
}

} // verus!
