//! The post-processing pipeline's plan.
//!
//! Once the stop coordinator holds the finalized tracks, the rest of the work
//! is mechanical: merge when the policy says so, normalize the one chosen
//! input into a separately named file, optionally relocate it to persisted
//! storage, and delete every per-capture track file. The plan fixes each of
//! these steps as plain paths; the surrounding process carries them out.

use vstd::prelude::*;

use crate::error::RecordError;
use crate::policy::{output_selection_spec, select_output, OutputSelection};
use crate::sink::Track;

verus! {

/// The merge of two tracks into a fresh two-channel destination.
pub struct MergeStep {
    pub first: String,
    pub second: String,
    pub dst: String,
}

/// The single normalization pass: read `input`, write the loudness-normalized
/// copy to `output`. The two are never the same file.
pub struct NormalizeStep {
    pub input: String,
    pub output: String,
}

/// Everything the pipeline does after the tracks are finalized, as data.
pub struct PipelinePlan {
    /// Present exactly when both of two tracks received samples.
    pub merge: Option<MergeStep>,
    /// The one normalization pass; its input is the selected or merged track.
    pub normalize: NormalizeStep,
    /// The persisted-storage destination of the normalized file, when asked
    /// for and available.
    pub relocate_to: Option<String>,
    /// Where the final artifact ends up.
    pub final_path: String,
    /// The per-capture track files to remove, selected or not.
    pub delete: Vec<String>,
}

/// What the plan promises of `tracks` and the supplied fresh names.
pub open spec fn pipeline_plan_ok(
    p: PipelinePlan,
    tracks: Seq<Track>,
    store_persisted: bool,
    merge_path: String,
    normalized_path: String,
    persist_path: Option<String>,
) -> bool {
    &&& match output_selection_spec(tracks) {
        Ok(OutputSelection::Use { index }) => {
            &&& p.merge is None
            &&& p.normalize.input == tracks[index as int].path
        },
        Ok(OutputSelection::MergeBoth) => {
            &&& p.merge matches Some(m) && m.first == tracks[0].path && m.second == tracks[1].path
                && m.dst == merge_path
            &&& p.normalize.input == merge_path
        },
        Err(_) => false,
    }
    &&& p.normalize.output == normalized_path
    &&& match persist_path {
        Some(target) => {
            &&& store_persisted ==> p.relocate_to == Some(target) && p.final_path == target
            &&& !store_persisted ==> p.relocate_to is None && p.final_path == normalized_path
        },
        None => p.relocate_to is None && p.final_path == normalized_path,
    }
    &&& p.delete@.len() == tracks.len()
    &&& forall|i: int| 0 <= i < tracks.len() ==> p.delete@[i] == tracks[i].path
}

/// Builds the pipeline plan for the finalized `tracks`.
///
/// `merge_path` and `normalized_path` are fresh names the caller drew for the
/// merged track and the normalized output; freshness is what makes the
/// normalization a copy to a new file rather than an edit in place.
/// `persist_path` is the destination in persisted storage, when one could be
/// resolved.
pub fn plan_pipeline(
    tracks: &Vec<Track>,
    store_persisted: bool,
    merge_path: String,
    normalized_path: String,
    persist_path: Option<String>,
) -> (r: Result<PipelinePlan, RecordError>)
    requires
        forall|i: int| 0 <= i < tracks@.len() ==> normalized_path@ != #[trigger] tracks@[i].path@,
        normalized_path@ != merge_path@,
    ensures
        output_selection_spec(tracks@) matches Err(e) ==> r == Err::<PipelinePlan, RecordError>(e),
        output_selection_spec(tracks@) is Ok ==> (r matches Ok(p) && pipeline_plan_ok(
            p,
            tracks@,
            store_persisted,
            merge_path,
            normalized_path,
            persist_path,
        ) && p.normalize.output@ != p.normalize.input@),
{
    let selection = match select_output(tracks) {
        Ok(s) => s,
        Err(e) => {
            return Err(e);
        },
    };
    let (merge, normalize_input) = match selection {
        OutputSelection::Use { index } => (None, tracks[index].path.clone()),
        OutputSelection::MergeBoth => (
            Some(
                MergeStep {
                    first: tracks[0].path.clone(),
                    second: tracks[1].path.clone(),
                    dst: merge_path.clone(),
                },
            ),
            merge_path.clone(),
        ),
    };
    let (relocate_to, final_path) = if store_persisted {
        match persist_path {
            Some(target) => (Some(target.clone()), target),
            None => (None, normalized_path.clone()),
        }
    } else {
        (None, normalized_path.clone())
    };
    let mut delete: Vec<String> = Vec::new();
    let mut i: usize = 0;
    while i < tracks.len()
        invariant
            0 <= i <= tracks@.len(),
            delete@.len() == i,
            forall|j: int| 0 <= j < i ==> delete@[j] == tracks@[j].path,
        decreases tracks@.len() - i,
    {
        delete.push(tracks[i].path.clone());
        i = i + 1;
    }
    Ok(
        PipelinePlan {
            merge,
            normalize: NormalizeStep { input: normalize_input, output: normalized_path },
            relocate_to,
            final_path,
            delete,
        },
    )
}

} // verus!
