//! The session's guarantees, stated and proved over the step predicates.
//!
//! Each proof function here is a fact about sequences of calls that no
//! single contract states on its own: what a whole start/write/stop run
//! produces, that a second start is a no-op, that the toggle guard admits
//! one caller, and what the pipeline does and does not touch.

use vstd::prelude::*;

use crate::device::AudioDevice;
use crate::error::RecordError;
use crate::pipeline::{pipeline_plan_ok, PipelinePlan};
use crate::policy::{output_selection_spec, OutputSelection};
use crate::session::{
    all_setups_supported, begin_toggle_step, default_devices, end_toggle_step, finish_stop_step,
    planned_sinks, sink_states, start_step, toggle_route_spec, write_step, RecordingSession,
    SourceSetup, StopInputs, StopOutcome, ToggleAction,
};

verus! {

/// A session started on a single device yields, at stop, exactly one track:
/// the device's sink, under the sink file name the start was given, holding
/// exactly the samples the capture callback delivered. The pipeline
/// normalizes that track into a separately named file, does not merge, and
/// deletes the device's track file; the session ends idle.
pub proof fn lemma_single_device_roundtrip(
    s0: RecordingSession,
    s1: RecordingSession,
    s2: RecordingSession,
    s3: RecordingSession,
    devices: Vec<AudioDevice>,
    setups: Vec<SourceSetup>,
    store_in_documents: bool,
    count: u64,
    io: StopInputs,
    out: StopOutcome,
)
    requires
        s0.wf(),
        s0.phase is Idle,
        setups@.len() == 1,
        setups@[0] is DeviceInput,
        start_step(s0, s1, devices, setups, store_in_documents, Ok(())),
        write_step(s1, s2, 0, count),
        io.system_track is None,
        finish_stop_step(s2, s3, io, out),
    ensures
        out.tracks@.len() == 1,
        out.tracks@[0].sample_count == count,
        out.tracks@[0].path@ == setups@[0]->sink_path@,
        out.plan matches Ok(p) && {
            &&& p.merge is None
            &&& p.normalize.input == out.tracks@[0].path
            &&& p.normalize.output@ != out.tracks@[0].path@
            &&& p.delete@.len() == 1
            &&& p.delete@[0] == out.tracks@[0].path
        },
        s3.phase is Idle,
        s3.sinks@.len() == 0,
{
    reveal_with_fuel(planned_sinks, 3);
    assert(setups@.drop_last().len() == 0);
    assert(planned_sinks(setups@) =~= Seq::empty().push(
        (setups@[0]->sink_path@, crate::format::wav_spec_of(setups@[0]->config)),
    ));
    assert(sink_states(s1.sinks@)[0] == (s1.sinks@[0].path@, s1.sinks@[0].format));
    assert(s2.sinks@[0].samples_written == count);
    assert(output_selection_spec(out.tracks@) == Ok::<OutputSelection, RecordError>(
        OutputSelection::Use { index: 0 },
    ));
}

/// A second start without an intervening stop is a no-op from the caller's
/// perspective: it reports success, changes nothing, and opens no second set
/// of sinks.
pub proof fn lemma_start_twice_is_noop(
    s0: RecordingSession,
    s1: RecordingSession,
    s2: RecordingSession,
    devices1: Vec<AudioDevice>,
    setups1: Vec<SourceSetup>,
    store1: bool,
    devices2: Vec<AudioDevice>,
    setups2: Vec<SourceSetup>,
    store2: bool,
    r2: Result<(), RecordError>,
)
    requires
        s0.phase is Idle,
        start_step(s0, s1, devices1, setups1, store1, Ok(())),
        start_step(s1, s2, devices2, setups2, store2, r2),
    ensures
        s2 == s1,
        r2 is Ok,
{
}

/// Of toggle calls racing for the guard, only the first acquires it; one
/// that finds the guard held is turned away with the session unchanged.
pub proof fn lemma_toggle_guard_exclusive(
    s0: RecordingSession,
    s1: RecordingSession,
    s2: RecordingSession,
    acquired1: bool,
    acquired2: bool,
)
    requires
        !s0.toggling,
        begin_toggle_step(s0, s1, acquired1),
        begin_toggle_step(s1, s2, acquired2),
    ensures
        acquired1,
        !acquired2,
        s2 == s1,
{
}

/// In a list without a default device, the default set is empty.
pub proof fn lemma_no_default_devices(available: Seq<AudioDevice>)
    requires
        forall|i: int| 0 <= i < available.len() ==> !(#[trigger] available[i]).is_default,
    ensures
        default_devices(available).len() == 0,
    decreases available.len(),
{
    if available.len() > 0 {
        lemma_no_default_devices(available.drop_last());
    }
}

/// A toggle that finds no prior configuration and no default device fails
/// with `NoDefaultDevice`, and once the guard is released the session stands
/// exactly as before, idle.
pub proof fn lemma_toggle_without_devices_fails_idle(
    s0: RecordingSession,
    s1: RecordingSession,
    s2: RecordingSession,
    available: Seq<AudioDevice>,
    r: Result<ToggleAction, RecordError>,
)
    requires
        s0.phase is Idle,
        s0.last_config is None,
        !s0.toggling,
        begin_toggle_step(s0, s1, true),
        toggle_route_spec(s1, available, r),
        forall|i: int| 0 <= i < available.len() ==> !(#[trigger] available[i]).is_default,
        end_toggle_step(s1, s2),
    ensures
        r == Err::<ToggleAction, RecordError>(RecordError::NoDefaultDevice),
        s2 == s0,
        s2.phase is Idle,
{
    lemma_no_default_devices(available);
}

/// A start that fails on an unsupported encoding leaves the session idle,
/// with no sink opened and no track file on disk, and reports exactly
/// `UnsupportedFormat`.
pub proof fn lemma_failed_start_leaves_nothing(
    s0: RecordingSession,
    s1: RecordingSession,
    devices: Vec<AudioDevice>,
    setups: Vec<SourceSetup>,
    store_in_documents: bool,
    r: Result<(), RecordError>,
)
    requires
        s0.phase is Idle,
        !all_setups_supported(setups@),
        start_step(s0, s1, devices, setups, store_in_documents, r),
    ensures
        r == Err::<(), RecordError>(RecordError::UnsupportedFormat),
        s1.phase is Idle,
        s1.sinks@.len() == 0,
        !s1.system_audio,
{
}

/// `Recording` is entered only from `Idle`: a start call that finds the
/// session in any other phase changes nothing, so no second session can come
/// into being beside an active one.
pub proof fn lemma_recording_entered_only_from_idle(
    s0: RecordingSession,
    s1: RecordingSession,
    devices: Vec<AudioDevice>,
    setups: Vec<SourceSetup>,
    store_in_documents: bool,
    r: Result<(), RecordError>,
)
    requires
        start_step(s0, s1, devices, setups, store_in_documents, r),
        !(s0.phase is Recording),
        s1.phase is Recording,
    ensures
        s0.phase is Idle,
{
}

/// The pipeline normalizes exactly once, and only the selected or merged
/// track: its one normalization step reads the policy's choice, writes to a
/// file that is none of the raw per-device tracks, and every raw track is
/// deleted rather than exposed.
pub proof fn lemma_normalize_once_on_selection(
    p: PipelinePlan,
    tracks: Seq<crate::sink::Track>,
    store_persisted: bool,
    merge_path: String,
    normalized_path: String,
    persist_path: Option<String>,
)
    requires
        pipeline_plan_ok(p, tracks, store_persisted, merge_path, normalized_path, persist_path),
        forall|i: int| 0 <= i < tracks.len() ==> normalized_path@ != (#[trigger] tracks[i]).path@,
    ensures
        output_selection_spec(tracks) matches Ok(sel) && match sel {
            OutputSelection::Use { index } => p.merge is None && p.normalize.input
                == tracks[index as int].path,
            OutputSelection::MergeBoth => p.merge is Some && p.normalize.input == merge_path,
        },
        forall|i: int| 0 <= i < tracks.len() ==> p.normalize.output@ != (#[trigger] tracks[i]).path@,
        p.delete@.len() == tracks.len(),
        forall|i: int| 0 <= i < tracks.len() ==> p.delete@[i] == (#[trigger] tracks[i]).path,
        p.relocate_to is None ==> p.final_path == p.normalize.output,
{
}

} // verus!
