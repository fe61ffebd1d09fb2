use audio_record::device::AudioDevice;
use audio_record::error::RecordError;
use audio_record::format::{SampleFormat, StreamConfig};
use audio_record::sink::Track;
use audio_record::session::{
    Phase, RecordingSession, SourceSetup, StopInputs, ToggleAction,
};

fn device(id: &str, name: &str, is_input: bool, is_default: bool) -> AudioDevice {
    AudioDevice {
        is_default,
        is_input,
        id: id.to_string(),
        name: name.to_string(),
    }
}

fn config(format: SampleFormat) -> StreamConfig {
    StreamConfig {
        channels: 1,
        sample_rate: 48000,
        format,
    }
}

fn input(format: SampleFormat, sink_path: &str) -> SourceSetup {
    SourceSetup::DeviceInput {
        config: config(format),
        sink_path: sink_path.to_string(),
    }
}

fn stop_inputs() -> StopInputs {
    StopInputs {
        system_track: None,
        merge_path: "tmp/merged.wav".to_string(),
        normalized_path: "tmp/normalized.wav".to_string(),
        persist_path: None,
    }
}

#[test]
fn single_device_start_stop_yields_one_track() {
    let mut session = RecordingSession::new();
    assert_eq!(session.phase, Phase::Idle);

    let devices = vec![device("0", "Microphone", true, true)];
    let setups = vec![input(SampleFormat::F32, "tmp/a.wav")];
    assert!(session.start_record(devices, setups, false).is_ok());
    assert_eq!(session.phase, Phase::Recording);
    assert_eq!(session.sinks.len(), 1);

    session.write_samples(0, 48000);

    let out = session.stop_record(stop_inputs()).expect("a recording session stops");
    assert_eq!(out.tracks.len(), 1);
    assert_eq!(out.tracks[0].path, "tmp/a.wav");
    assert_eq!(out.tracks[0].sample_count, 48000);

    let plan = out.plan.expect("one track is always selectable");
    assert!(plan.merge.is_none());
    assert_eq!(plan.normalize.input, "tmp/a.wav");
    assert_eq!(plan.normalize.output, "tmp/normalized.wav");
    assert_eq!(plan.final_path, "tmp/normalized.wav");
    assert_eq!(plan.delete, vec!["tmp/a.wav".to_string()]);

    assert_eq!(session.phase, Phase::Idle);
    assert_eq!(session.sinks.len(), 0);
}

#[test]
fn start_twice_is_a_noop() {
    let mut session = RecordingSession::new();
    let devices = vec![device("0", "Microphone", true, true)];
    let setups = vec![input(SampleFormat::I16, "tmp/a.wav")];
    assert!(session.start_record(devices, setups, false).is_ok());
    assert_eq!(session.sinks.len(), 1);

    let devices2 = vec![device("1", "Line In", true, false)];
    let setups2 = vec![input(SampleFormat::I16, "tmp/b.wav")];
    assert!(session.start_record(devices2, setups2, true).is_ok());

    // No second set of sinks, and the session still records the first sink.
    assert_eq!(session.phase, Phase::Recording);
    assert_eq!(session.sinks.len(), 1);
    assert_eq!(session.sinks[0].path, "tmp/a.wav");
    assert!(!session.store_in_documents);
}

#[test]
fn toggle_guard_admits_one_caller() {
    let mut session = RecordingSession::new();
    assert!(session.begin_toggle());
    assert!(!session.begin_toggle());
    assert!(!session.begin_toggle());
    session.end_toggle();
    assert!(session.begin_toggle());
}

#[test]
fn toggle_without_devices_fails_idle() {
    let mut session = RecordingSession::new();
    assert!(session.begin_toggle());
    let available = vec![
        device("0", "Microphone", true, false),
        device("1", "Speakers", false, false),
    ];
    let route = session.toggle_route(&available);
    assert_eq!(route.unwrap_err(), RecordError::NoDefaultDevice);
    session.end_toggle();
    assert_eq!(session.phase, Phase::Idle);
    assert!(!session.toggling);
}

#[test]
fn toggle_replays_last_configuration() {
    let mut session = RecordingSession::new();
    let devices = vec![device("2", "USB Microphone", true, false)];
    let setups = vec![input(SampleFormat::I32, "tmp/a.wav")];
    assert!(session.start_record(devices, setups, true).is_ok());
    session.stop_record(stop_inputs()).expect("stops");

    let available = vec![device("0", "Microphone", true, true)];
    match session.toggle_route(&available).expect("a cached configuration routes to start") {
        ToggleAction::Start { devices, store_in_documents } => {
            assert_eq!(devices.len(), 1);
            assert_eq!(devices[0].id, "2");
            assert_eq!(devices[0].name, "USB Microphone");
            assert!(store_in_documents);
        }
        _ => panic!("expected a start action"),
    }
}

#[test]
fn toggle_falls_back_to_default_devices() {
    let session = RecordingSession::new();
    let available = vec![
        device("0", "Microphone", true, true),
        device("1", "Line In", true, false),
        device("2", "Speakers", false, true),
    ];
    match session.toggle_route(&available).expect("defaults exist") {
        ToggleAction::Start { devices, store_in_documents } => {
            assert_eq!(devices.len(), 2);
            assert_eq!(devices[0].id, "0");
            assert_eq!(devices[1].id, "2");
            assert!(!store_in_documents);
        }
        _ => panic!("expected a start action"),
    }
}

#[test]
fn toggle_on_recording_session_routes_to_stop() {
    let mut session = RecordingSession::new();
    let devices = vec![device("0", "Microphone", true, true)];
    let setups = vec![input(SampleFormat::I8, "tmp/a.wav")];
    assert!(session.start_record(devices, setups, false).is_ok());
    assert!(session.begin_toggle());
    let available: Vec<AudioDevice> = Vec::new();
    assert!(matches!(session.toggle_route(&available), Ok(ToggleAction::Stop)));
    session.end_toggle();
}

#[test]
fn unsupported_format_fails_start_and_leaves_idle() {
    let mut session = RecordingSession::new();
    let devices = vec![
        device("0", "Microphone", true, true),
        device("1", "Hi-Res Interface", true, false),
    ];
    let setups = vec![
        input(SampleFormat::I16, "tmp/a.wav"),
        input(SampleFormat::I64, "tmp/b.wav"),
    ];
    let r = session.start_record(devices, setups, false);
    assert_eq!(r.unwrap_err(), RecordError::UnsupportedFormat);
    assert_eq!(session.phase, Phase::Idle);
    assert_eq!(session.sinks.len(), 0);
    assert!(!session.system_audio);
}

#[test]
fn two_live_tracks_are_merged_then_normalized_once() {
    let mut session = RecordingSession::new();
    let devices = vec![
        device("0", "Microphone", true, true),
        device("1", "Line In", true, false),
    ];
    let setups = vec![
        input(SampleFormat::F32, "tmp/a.wav"),
        input(SampleFormat::F32, "tmp/b.wav"),
    ];
    assert!(session.start_record(devices, setups, false).is_ok());
    session.write_samples(0, 80);
    session.write_samples(1, 120);

    let out = session.stop_record(stop_inputs()).expect("stops");
    assert_eq!(out.tracks.len(), 2);
    let plan = out.plan.expect("two tracks are selectable");

    let merge = plan.merge.expect("both tracks received samples, so they merge");
    assert_eq!(merge.first, "tmp/a.wav");
    assert_eq!(merge.second, "tmp/b.wav");
    assert_eq!(merge.dst, "tmp/merged.wav");

    // One normalization pass, on the merged track, into a new file.
    assert_eq!(plan.normalize.input, "tmp/merged.wav");
    assert_eq!(plan.normalize.output, "tmp/normalized.wav");
    assert_ne!(plan.normalize.output, plan.normalize.input);
    assert_ne!(plan.normalize.output, "tmp/a.wav".to_string());
    assert_ne!(plan.normalize.output, "tmp/b.wav".to_string());

    // The raw per-device tracks are deleted, not exposed.
    assert_eq!(plan.delete, vec!["tmp/a.wav".to_string(), "tmp/b.wav".to_string()]);
    assert_eq!(plan.final_path, "tmp/normalized.wav");
}

#[test]
fn silent_first_track_selects_the_second() {
    let mut session = RecordingSession::new();
    let devices = vec![
        device("0", "Microphone", true, true),
        device("1", "Line In", true, false),
    ];
    let setups = vec![
        input(SampleFormat::F32, "tmp/a.wav"),
        input(SampleFormat::F32, "tmp/b.wav"),
    ];
    assert!(session.start_record(devices, setups, false).is_ok());
    session.write_samples(1, 120);

    let out = session.stop_record(stop_inputs()).expect("stops");
    let plan = out.plan.expect("two tracks are selectable");
    assert!(plan.merge.is_none());
    assert_eq!(plan.normalize.input, "tmp/b.wav");
    // Both raw tracks are still cleaned up.
    assert_eq!(plan.delete, vec!["tmp/a.wav".to_string(), "tmp/b.wav".to_string()]);
}

#[test]
fn persisted_storage_relocates_the_normalized_file() {
    let mut session = RecordingSession::new();
    let devices = vec![device("0", "Microphone", true, true)];
    let setups = vec![input(SampleFormat::F32, "tmp/a.wav")];
    assert!(session.start_record(devices, setups, true).is_ok());
    session.write_samples(0, 10);

    let io = StopInputs {
        system_track: None,
        merge_path: "tmp/merged.wav".to_string(),
        normalized_path: "tmp/normalized.wav".to_string(),
        persist_path: Some("documents/normalized.wav".to_string()),
    };
    let out = session.stop_record(io).expect("stops");
    let plan = out.plan.expect("one track is selectable");
    assert_eq!(plan.relocate_to, Some("documents/normalized.wav".to_string()));
    assert_eq!(plan.final_path, "documents/normalized.wav");
}

#[test]
fn system_audio_track_arrives_on_stop() {
    let mut session = RecordingSession::new();
    let devices = vec![device("screencapturekit", "Speakers", false, true)];
    assert!(devices[0].is_system_audio());
    let setups = vec![SourceSetup::SystemAudio];
    assert!(session.start_record(devices, setups, false).is_ok());
    assert!(session.system_audio);
    assert_eq!(session.sinks.len(), 0);

    let io = StopInputs {
        system_track: Some(Track {
            path: "tmp/system.wav".to_string(),
            sample_count: 500,
        }),
        merge_path: "tmp/merged.wav".to_string(),
        normalized_path: "tmp/normalized.wav".to_string(),
        persist_path: None,
    };
    let out = session.stop_record(io).expect("stops");
    assert_eq!(out.tracks.len(), 1);
    assert_eq!(out.tracks[0].path, "tmp/system.wav");
    assert_eq!(out.tracks[0].sample_count, 500);
    let plan = out.plan.expect("one track is selectable");
    assert_eq!(plan.normalize.input, "tmp/system.wav");
    assert_eq!(session.phase, Phase::Idle);
}

#[test]
fn aborted_start_rolls_back_to_idle() {
    let mut session = RecordingSession::new();
    let devices = vec![
        device("0", "Microphone", true, true),
        device("1", "Line In", true, false),
    ];
    let setups = vec![
        input(SampleFormat::F32, "tmp/a.wav"),
        input(SampleFormat::I16, "tmp/b.wav"),
    ];
    assert!(session.start_record(devices, setups, false).is_ok());
    assert_eq!(session.phase, Phase::Recording);

    let dropped = session.abort_start();
    assert_eq!(dropped, vec!["tmp/a.wav".to_string(), "tmp/b.wav".to_string()]);
    assert_eq!(session.phase, Phase::Idle);
    assert_eq!(session.sinks.len(), 0);
    assert!(!session.system_audio);
    // The cached configuration survives the rollback for the next toggle.
    assert!(session.last_config.is_some());
}

#[test]
fn stop_without_recording_is_a_noop() {
    let mut session = RecordingSession::new();
    assert!(session.stop_record(stop_inputs()).is_none());
    assert_eq!(session.phase, Phase::Idle);
}
