//! The recording session: lifecycle, capture bookkeeping, stop coordination.
//!
//! One session object owns the lifecycle phase, the toggle guard, the last
//! used configuration, and the active sample sinks. `start_record`,
//! `stop_record` and the toggle protocol are the decision side of the
//! recorder: the surrounding process negotiates device configurations, opens
//! and pauses the native streams, draws fresh file names, and feeds each
//! result in as a plain value.
//!
//! Every transition is pinned by a step predicate (`start_step`,
//! `begin_stop_step`, `finish_stop_step`, ...) so that facts about sequences
//! of calls can be stated and proved once, over the predicates alone.

use vstd::prelude::*;

use crate::device::AudioDevice;
use crate::error::RecordError;
use crate::format::{wav_spec_from_config, wav_spec_of, StreamConfig, WavSpec};
use crate::pipeline::{pipeline_plan_ok, plan_pipeline, PipelinePlan};
use crate::policy::output_selection_spec;
use crate::sink::{SampleSink, Track};

verus! {

/// The lifecycle phase of the one recording session.
#[derive(Clone, Copy, PartialEq, Eq, Structural, Debug)]
pub enum Phase {
    Idle,
    Recording,
    Stopping,
}

/// The configuration a start call was made with, kept so that a trigger
/// without parameters can replay it.
pub struct RecordConfig {
    pub devices: Vec<AudioDevice>,
    pub store_in_documents: bool,
}

/// What the surrounding process prepared for one selected device: either the
/// negotiated stream configuration and a fresh sink file name, or the
/// system-audio capture source, which brings its own file on stop.
pub enum SourceSetup {
    DeviceInput { config: StreamConfig, sink_path: String },
    SystemAudio,
}

/// The one recording session of the process.
pub struct RecordingSession {
    pub phase: Phase,
    /// The compare-and-set guard that serializes toggle calls.
    pub toggling: bool,
    pub last_config: Option<RecordConfig>,
    /// One sink per open device stream, in setup order.
    pub sinks: Vec<SampleSink>,
    /// Whether a system-audio capture source is active.
    pub system_audio: bool,
    /// The active session's storage preference.
    pub store_in_documents: bool,
}

/// Whether this setup asks for an encoding the recorder can store.
pub open spec fn setup_supported(s: SourceSetup) -> bool {
    s matches SourceSetup::DeviceInput { config, .. } ==> config.format.is_supported_spec()
}

/// Whether every setup asks for a supported encoding.
pub open spec fn all_setups_supported(setups: Seq<SourceSetup>) -> bool {
    forall|i: int| 0 <= i < setups.len() ==> setup_supported(#[trigger] setups[i])
}

/// Whether some setup is the system-audio source.
pub open spec fn has_system_audio(setups: Seq<SourceSetup>) -> bool {
    exists|i: int| 0 <= i < setups.len() && setups[i] is SystemAudio
}

/// The path and format of each sink that the setups call for, in order.
pub open spec fn planned_sinks(setups: Seq<SourceSetup>) -> Seq<(Seq<char>, WavSpec)>
    decreases setups.len(),
{
    if setups.len() == 0 {
        Seq::empty()
    } else {
        let rest = planned_sinks(setups.drop_last());
        match setups.last() {
            SourceSetup::DeviceInput { config, sink_path } => rest.push(
                (sink_path@, wav_spec_of(config)),
            ),
            SourceSetup::SystemAudio => rest,
        }
    }
}

/// The path and format of each sink of a sink list.
pub open spec fn sink_states(sinks: Seq<SampleSink>) -> Seq<(Seq<char>, WavSpec)> {
    sinks.map_values(|s: SampleSink| (s.path@, s.format))
}

/// The devices of `devices` marked default, in order.
pub open spec fn default_devices(devices: Seq<AudioDevice>) -> Seq<AudioDevice>
    decreases devices.len(),
{
    if devices.len() == 0 {
        Seq::empty()
    } else {
        let rest = default_devices(devices.drop_last());
        if devices.last().is_default {
            rest.push(devices.last())
        } else {
            rest
        }
    }
}

impl RecordingSession {
    /// The session's internal invariant: an idle session holds no capture
    /// resources, and a sink that still sits in the session is never
    /// finalized.
    pub open spec fn wf(&self) -> bool {
        &&& self.phase is Idle ==> self.sinks@.len() == 0 && !self.system_audio
        &&& forall|i: int| 0 <= i < self.sinks@.len() ==> !(#[trigger] self.sinks@[i]).finalized
    }

    /// A fresh session: idle, nothing recorded yet, no configuration cached.
    pub fn new() -> (r: Self)
        ensures
            r.phase is Idle,
            !r.toggling,
            r.last_config is None,
            r.sinks@.len() == 0,
            !r.system_audio,
            !r.store_in_documents,
            r.wf(),
    {
        RecordingSession {
            phase: Phase::Idle,
            toggling: false,
            last_config: None,
            sinks: Vec::new(),
            system_audio: false,
            store_in_documents: false,
        }
    }
}

/// How a start call moves the session from `pre` to `post`.
///
/// A session that is not idle ignores the call. An idle one records the
/// configuration, then either opens one fresh sink per device stream and
/// enters `Recording`, or, when some setup asks for an unsupported encoding,
/// fails with `UnsupportedFormat` before anything is opened and stays idle.
pub open spec fn start_step(
    pre: RecordingSession,
    post: RecordingSession,
    devices: Vec<AudioDevice>,
    setups: Vec<SourceSetup>,
    store_in_documents: bool,
    r: Result<(), RecordError>,
) -> bool {
    if !(pre.phase is Idle) {
        post == pre && r is Ok
    } else {
        let cfg_recorded = post.last_config matches Some(c) && c.devices == devices
            && c.store_in_documents == store_in_documents;
        if all_setups_supported(setups@) {
            &&& r is Ok
            &&& post.phase is Recording
            &&& post.toggling == pre.toggling
            &&& cfg_recorded
            &&& sink_states(post.sinks@) == planned_sinks(setups@)
            &&& forall|i: int|
                0 <= i < post.sinks@.len() ==> (#[trigger] post.sinks@[i]).samples_written == 0
                    && !post.sinks@[i].finalized
            &&& post.system_audio == has_system_audio(setups@)
            &&& post.store_in_documents == store_in_documents
        } else {
            &&& r == Err::<(), RecordError>(RecordError::UnsupportedFormat)
            &&& post.phase is Idle
            &&& post.toggling == pre.toggling
            &&& cfg_recorded
            &&& post.sinks@.len() == 0
            &&& !post.system_audio
            &&& post.store_in_documents == pre.store_in_documents
        }
    }
}

impl RecordingSession {
    /// Starts recording from the selected devices.
    ///
    /// `setups` holds, device by device, what the surrounding process
    /// prepared: the negotiated configuration and a fresh sink file name for
    /// a real device, or the system-audio source for the sentinel device.
    #[verifier::loop_isolation(false)]
    pub fn start_record(
        &mut self,
        devices: Vec<AudioDevice>,
        setups: Vec<SourceSetup>,
        store_in_documents: bool,
    ) -> (r: Result<(), RecordError>)
        requires
            old(self).wf(),
            devices@.len() > 0,
            setups@.len() == devices@.len(),
            forall|i: int|
                0 <= i < devices@.len() ==> ((#[trigger] setups@[i]) is SystemAudio
                    <==> devices@[i].is_system_audio_spec()),
        ensures
            start_step(*old(self), *final(self), devices, setups, store_in_documents, r),
            final(self).wf(),
    {
        let is_idle = match self.phase {
            Phase::Idle => true,
            _ => false,
        };
        if !is_idle {
            return Ok(());
        }
        self.last_config = Some(RecordConfig { devices, store_in_documents });

        // Fail fast: every encoding is checked before any sink is opened.
        let mut i: usize = 0;
        while i < setups.len()
            invariant
                i <= setups@.len(),
                forall|j: int| 0 <= j < i ==> setup_supported(#[trigger] setups@[j]),
            decreases setups@.len() - i,
        {
            let supported = match &setups[i] {
                SourceSetup::DeviceInput { config, .. } => config.format.is_supported(),
                SourceSetup::SystemAudio => true,
            };
            if !supported {
                proof {
                    assert(!setup_supported(setups@[i as int]));
                }
                return Err(RecordError::UnsupportedFormat);
            }
            i = i + 1;
        }

        self.phase = Phase::Recording;
        self.store_in_documents = store_in_documents;

        let mut sinks: Vec<SampleSink> = Vec::new();
        let mut sys = false;
        let mut i: usize = 0;
        while i < setups.len()
            invariant
                i <= setups@.len(),
                sink_states(sinks@) == planned_sinks(setups@.take(i as int)),
                forall|j: int|
                    0 <= j < sinks@.len() ==> (#[trigger] sinks@[j]).samples_written == 0
                        && !sinks@[j].finalized,
                sys == exists|j: int| 0 <= j < i && setups@[j] is SystemAudio,
            decreases setups@.len() - i,
        {
            match &setups[i] {
                SourceSetup::DeviceInput { config, sink_path } => {
                    sinks.push(SampleSink::new(sink_path.clone(), wav_spec_from_config(config)));
                },
                SourceSetup::SystemAudio => {
                    sys = true;
                },
            }
            proof {
                assert(setups@.take(i + 1 as int).drop_last() =~= setups@.take(i as int));
                assert(setups@.take(i + 1 as int).last() == setups@[i as int]);
                assert(sink_states(sinks@) =~= planned_sinks(setups@.take(i + 1 as int)));
            }
            i = i + 1;
        }
        proof {
            assert(setups@.take(setups@.len() as int) =~= setups@);
        }
        self.sinks = sinks;
        self.system_audio = sys;
        Ok(())
    }

    /// Rolls a session back to idle after a stream failed to open: every
    /// sink is dropped and no capture source stays registered, so a failed
    /// start leaves nothing awaiting a finalize. The returned paths are the
    /// dropped sinks' files, which the caller removes.
    #[verifier::loop_isolation(false)]
    pub fn abort_start(&mut self) -> (paths: Vec<String>)
        ensures
            abort_start_step(*old(self), *final(self)),
            paths@.len() == old(self).sinks@.len(),
            forall|i: int|
                0 <= i < old(self).sinks@.len() ==> paths@[i] == (#[trigger] old(
                    self,
                ).sinks@[i]).path,
            final(self).wf(),
    {
        let ghost orig = self.sinks@;
        let mut paths: Vec<String> = Vec::new();
        while self.sinks.len() > 0
            invariant
                paths@.len() + self.sinks@.len() == orig.len(),
                self.sinks@ == orig.subrange(paths@.len() as int, orig.len() as int),
                forall|j: int| 0 <= j < paths@.len() ==> paths@[j] == (#[trigger] orig[j]).path,
                self.phase == old(self).phase,
                self.toggling == old(self).toggling,
                self.last_config == old(self).last_config,
                self.system_audio == old(self).system_audio,
                self.store_in_documents == old(self).store_in_documents,
            decreases self.sinks@.len(),
        {
            let ghost k = paths@.len() as int;
            let sink = self.sinks.remove(0);
            proof {
                assert(sink == orig[k]);
                assert(self.sinks@ =~= orig.subrange(k + 1, orig.len() as int));
            }
            paths.push(sink.path);
        }
        self.phase = Phase::Idle;
        self.system_audio = false;
        paths
    }

    /// Accepts a buffer of `count` samples from the capture callback of the
    /// stream at `index`. A no-op on a sink that is already finalized.
    pub fn write_samples(&mut self, index: usize, count: u64)
        requires
            index < old(self).sinks@.len(),
            old(self).sinks@[index as int].samples_written + count <= u64::MAX,
        ensures
            write_step(*old(self), *final(self), index as int, count),
            old(self).wf() ==> final(self).wf(),
    {
        self.sinks[index].write(count);
        proof {
            if old(self).sinks@[index as int].finalized {
                assert(final(self).sinks@ =~= old(self).sinks@);
            }
        }
    }
}

/// What the surrounding process hands the stop coordinator: the track the
/// system-audio source produced on its stop (when one was active and its
/// stop succeeded), and the fresh names the pipeline may use.
pub struct StopInputs {
    pub system_track: Option<Track>,
    /// A fresh name for the merged track.
    pub merge_path: String,
    /// A fresh name for the normalized output.
    pub normalized_path: String,
    /// The destination in persisted storage, when one could be resolved.
    pub persist_path: Option<String>,
}

/// What one stop produced: every finalized track, and the pipeline plan the
/// policy selected over them (or why none could be).
pub struct StopOutcome {
    /// One track per device sink in setup order, then the system-audio track.
    pub tracks: Vec<Track>,
    pub plan: Result<PipelinePlan, RecordError>,
}

/// How rolling back a failed start moves the session: back to idle, with no
/// sink and no capture source left, the cached configuration kept.
pub open spec fn abort_start_step(pre: RecordingSession, post: RecordingSession) -> bool {
    &&& post.phase is Idle
    &&& post.sinks@.len() == 0
    &&& !post.system_audio
    &&& post.toggling == pre.toggling
    &&& post.last_config == pre.last_config
    &&& post.store_in_documents == pre.store_in_documents
}

/// How one delivered buffer of `count` samples moves the session: the sink
/// at `index` grows by the buffer, unless it is already finalized, in which
/// case the buffer is dropped; nothing else changes.
pub open spec fn write_step(
    pre: RecordingSession,
    post: RecordingSession,
    index: int,
    count: u64,
) -> bool {
    &&& post.sinks@.len() == pre.sinks@.len()
    &&& pre.sinks@[index].finalized ==> post.sinks@ == pre.sinks@
    &&& !pre.sinks@[index].finalized ==> post.sinks@ == pre.sinks@.update(
        index,
        SampleSink {
            samples_written: (pre.sinks@[index].samples_written + count) as u64,
            ..pre.sinks@[index]
        },
    )
    &&& post.phase == pre.phase
    &&& post.toggling == pre.toggling
    &&& post.last_config == pre.last_config
    &&& post.system_audio == pre.system_audio
    &&& post.store_in_documents == pre.store_in_documents
}

/// What a toggle call is to do, decided from the session's phase.
#[derive(Debug)]
pub enum ToggleAction {
    /// Stop the recording session.
    Stop,
    /// Start recording from these devices with this storage preference.
    Start { devices: Vec<AudioDevice>, store_in_documents: bool },
    /// Do nothing: a stop is already underway.
    Ignore,
}

/// How taking the toggle guard moves the session: the guard is granted
/// exactly when it was free, and nothing else changes.
pub open spec fn begin_toggle_step(
    pre: RecordingSession,
    post: RecordingSession,
    acquired: bool,
) -> bool {
    acquired == !pre.toggling && post == (RecordingSession { toggling: true, ..pre })
}

/// How releasing the toggle guard moves the session.
pub open spec fn end_toggle_step(pre: RecordingSession, post: RecordingSession) -> bool {
    post == (RecordingSession { toggling: false, ..pre })
}

/// What `toggle_route` answers on a session `s` when the enumerated devices
/// are `available`.
pub open spec fn toggle_route_spec(
    s: RecordingSession,
    available: Seq<AudioDevice>,
    r: Result<ToggleAction, RecordError>,
) -> bool {
    match s.phase {
        Phase::Recording => r == Ok::<ToggleAction, RecordError>(ToggleAction::Stop),
        Phase::Stopping => r == Ok::<ToggleAction, RecordError>(ToggleAction::Ignore),
        Phase::Idle => match s.last_config {
            Some(c) => r matches Ok(ToggleAction::Start { devices, store_in_documents })
                && devices@ == c.devices@ && store_in_documents == c.store_in_documents,
            None => if default_devices(available).len() == 0 {
                r == Err::<ToggleAction, RecordError>(RecordError::NoDefaultDevice)
            } else {
                r matches Ok(ToggleAction::Start { devices, store_in_documents }) && devices@
                    == default_devices(available) && !store_in_documents
            },
        },
    }
}

/// A copy of a device list, device by device.
fn clone_devices(devices: &Vec<AudioDevice>) -> (r: Vec<AudioDevice>)
    ensures
        r@ == devices@,
{
    let mut r: Vec<AudioDevice> = Vec::new();
    let mut i: usize = 0;
    while i < devices.len()
        invariant
            i <= devices@.len(),
            r@ == devices@.take(i as int),
        decreases devices@.len() - i,
    {
        r.push(devices[i].clone());
        proof {
            assert(devices@.take(i + 1 as int) =~= devices@.take(i as int).push(
                devices@[i as int],
            ));
        }
        i = i + 1;
    }
    proof {
        assert(devices@.take(devices@.len() as int) =~= devices@);
    }
    r
}

/// The devices of `available` marked default, in order.
fn collect_default_devices(available: &Vec<AudioDevice>) -> (r: Vec<AudioDevice>)
    ensures
        r@ == default_devices(available@),
{
    let mut r: Vec<AudioDevice> = Vec::new();
    let mut i: usize = 0;
    while i < available.len()
        invariant
            i <= available@.len(),
            r@ == default_devices(available@.take(i as int)),
        decreases available@.len() - i,
    {
        if available[i].is_default {
            r.push(available[i].clone());
        }
        proof {
            assert(available@.take(i + 1 as int).drop_last() =~= available@.take(i as int));
            assert(available@.take(i + 1 as int).last() == available@[i as int]);
            assert(r@ =~= default_devices(available@.take(i + 1 as int)));
        }
        i = i + 1;
    }
    proof {
        assert(available@.take(available@.len() as int) =~= available@);
    }
    r
}

/// How the stop signal moves the session from `pre` to `post`: a recording
/// session enters `Stopping` at once, before any stream is touched, so that
/// concurrent calls observe the phase; any other session is left alone.
pub open spec fn begin_stop_step(pre: RecordingSession, post: RecordingSession, started: bool) -> bool {
    if pre.phase is Recording {
        started && post == (RecordingSession { phase: Phase::Stopping, ..pre })
    } else {
        !started && post == pre
    }
}

/// How the stop coordinator moves a stopping session to `post` and what its
/// outcome holds. Every sink is finalized exactly once, in order; the
/// system-audio track, when one came back, stands last; the pipeline plan is
/// built over those tracks with the session's storage preference; and the
/// session ends idle whatever the plan, with no sink left behind.
pub open spec fn finish_stop_step(
    pre: RecordingSession,
    post: RecordingSession,
    io: StopInputs,
    out: StopOutcome,
) -> bool {
    &&& post.phase is Idle
    &&& post.sinks@.len() == 0
    &&& !post.system_audio
    &&& post.toggling == pre.toggling
    &&& post.last_config == pre.last_config
    &&& post.store_in_documents == pre.store_in_documents
    &&& out.tracks@.len() == pre.sinks@.len() + (if io.system_track is Some {
        1int
    } else {
        0int
    })
    &&& forall|i: int|
        0 <= i < pre.sinks@.len() ==> (#[trigger] out.tracks@[i]).path == pre.sinks@[i].path
            && out.tracks@[i].sample_count == pre.sinks@[i].samples_written
    &&& io.system_track matches Some(t) ==> out.tracks@.last() == t
    &&& match output_selection_spec(out.tracks@) {
        Ok(_) => out.plan matches Ok(p) && pipeline_plan_ok(
            p,
            out.tracks@,
            pre.store_in_documents,
            io.merge_path,
            io.normalized_path,
            io.persist_path,
        ) && p.normalize.output@ != p.normalize.input@,
        Err(e) => out.plan == Err::<PipelinePlan, RecordError>(e),
    }
}

impl RecordingSession {
    /// Reacts to the stop signal: a recording session becomes `Stopping` at
    /// once, so that every concurrent call observes the change before any
    /// stream is paused; returns whether a stop actually began.
    pub fn begin_stop(&mut self) -> (started: bool)
        ensures
            begin_stop_step(*old(self), *final(self), started),
    {
        let recording = match self.phase {
            Phase::Recording => true,
            _ => false,
        };
        if recording {
            self.phase = Phase::Stopping;
            true
        } else {
            false
        }
    }

    /// The stop coordinator: finalizes every sink into its track, appends the
    /// system-audio track when one came back, plans the pipeline over them,
    /// and returns the session to `Idle` whatever happened.
    ///
    /// The caller pauses the native streams before this and carries the plan
    /// out after it; the fresh names in `io` keep the normalization a copy to
    /// a new file.
    #[verifier::loop_isolation(false)]
    pub fn finish_stop(&mut self, io: StopInputs) -> (out: StopOutcome)
        requires
            old(self).wf(),
            old(self).phase is Stopping,
            !old(self).system_audio ==> io.system_track is None,
            forall|i: int|
                0 <= i < old(self).sinks@.len() ==> io.normalized_path@ != (#[trigger] old(
                    self,
                ).sinks@[i]).path@,
            io.system_track matches Some(t) ==> io.normalized_path@ != t.path@,
            io.normalized_path@ != io.merge_path@,
        ensures
            finish_stop_step(*old(self), *final(self), io, out),
            final(self).wf(),
    {
        let ghost orig = self.sinks@;
        let StopInputs { system_track, merge_path, normalized_path, persist_path } = io;

        let mut tracks: Vec<Track> = Vec::new();
        while self.sinks.len() > 0
            invariant
                tracks@.len() + self.sinks@.len() == orig.len(),
                self.sinks@ == orig.subrange(tracks@.len() as int, orig.len() as int),
                forall|j: int|
                    0 <= j < tracks@.len() ==> (#[trigger] tracks@[j]).path == orig[j].path
                        && tracks@[j].sample_count == orig[j].samples_written,
                self.phase == old(self).phase,
                self.toggling == old(self).toggling,
                self.last_config == old(self).last_config,
                self.system_audio == old(self).system_audio,
                self.store_in_documents == old(self).store_in_documents,
            decreases self.sinks@.len(),
        {
            let ghost k = tracks@.len() as int;
            let mut sink = self.sinks.remove(0);
            proof {
                assert(sink == orig[k]);
                assert(!sink.finalized);
                assert(self.sinks@ =~= orig.subrange(k + 1, orig.len() as int));
            }
            match sink.finalize() {
                Ok(t) => tracks.push(t),
                Err(_) => {
                    proof {
                        assert(false);
                    }
                },
            }
        }

        match system_track {
            Some(t) => tracks.push(t),
            None => (),
        }

        let plan = plan_pipeline(
            &tracks,
            self.store_in_documents,
            merge_path,
            normalized_path,
            persist_path,
        );

        self.phase = Phase::Idle;
        self.system_audio = false;
        StopOutcome { tracks, plan }
    }

    /// Stops a recording session: enters `Stopping`, runs the stop
    /// coordinator, and ends idle. On a session that is not recording this is
    /// a no-op and returns nothing.
    /// Takes the toggle guard by compare-and-set. Exactly one of any group of
    /// concurrent toggle calls gets `true`; the others see the guard held and
    /// must leave the session alone.
    pub fn begin_toggle(&mut self) -> (acquired: bool)
        ensures
            begin_toggle_step(*old(self), *final(self), acquired),
    {
        if self.toggling {
            false
        } else {
            self.toggling = true;
            true
        }
    }

    /// Releases the toggle guard.
    pub fn end_toggle(&mut self)
        ensures
            end_toggle_step(*old(self), *final(self)),
    {
        self.toggling = false;
    }

    /// Decides what a toggle does, for the caller that holds the toggle
    /// guard: stop a recording session; replay the last configuration of an
    /// idle one; fall back to the devices of `available` marked default, with
    /// the persistent-storage preference off, when none was cached; fail with
    /// `NoDefaultDevice` when that set is empty too. A stopping session is
    /// left alone.
    pub fn toggle_route(&self, available: &Vec<AudioDevice>) -> (r: Result<
        ToggleAction,
        RecordError,
    >)
        ensures
            toggle_route_spec(*self, available@, r),
    {
        match self.phase {
            Phase::Recording => Ok(ToggleAction::Stop),
            Phase::Stopping => Ok(ToggleAction::Ignore),
            Phase::Idle => match &self.last_config {
                Some(c) => Ok(
                    ToggleAction::Start {
                        devices: clone_devices(&c.devices),
                        store_in_documents: c.store_in_documents,
                    },
                ),
                None => {
                    let defaults = collect_default_devices(available);
                    if defaults.len() == 0 {
                        Err(RecordError::NoDefaultDevice)
                    } else {
                        Ok(ToggleAction::Start { devices: defaults, store_in_documents: false })
                    }
                },
            },
        }
    }

    pub fn stop_record(&mut self, io: StopInputs) -> (r: Option<StopOutcome>)
        requires
            old(self).wf(),
            !old(self).system_audio ==> io.system_track is None,
            forall|i: int|
                0 <= i < old(self).sinks@.len() ==> io.normalized_path@ != (#[trigger] old(
                    self,
                ).sinks@[i]).path@,
            io.system_track matches Some(t) ==> io.normalized_path@ != t.path@,
            io.normalized_path@ != io.merge_path@,
        ensures
            !(old(self).phase is Recording) ==> r is None && *final(self) == *old(self),
            old(self).phase is Recording ==> (r matches Some(out) && finish_stop_step(
                *old(self),
                *final(self),
                io,
                out,
            )),
            final(self).wf(),
    {
        if self.begin_stop() {
            Some(self.finish_stop(io))
        } else {
            None
        }
    }
}

} // verus!
