use audio_record::error::RecordError;
use audio_record::format::{
    sample_format, wav_spec_from_config, SampleFormat, SampleKind, StreamConfig, WavSpec,
};
use audio_record::device::AudioDevice;
use audio_record::sink::SampleSink;

#[test]
fn supported_formats_are_exactly_the_four() {
    assert!(SampleFormat::I8.is_supported());
    assert!(SampleFormat::I16.is_supported());
    assert!(SampleFormat::I32.is_supported());
    assert!(SampleFormat::F32.is_supported());
    assert!(!SampleFormat::I24.is_supported());
    assert!(!SampleFormat::I64.is_supported());
    assert!(!SampleFormat::U8.is_supported());
    assert!(!SampleFormat::U16.is_supported());
    assert!(!SampleFormat::U32.is_supported());
    assert!(!SampleFormat::U64.is_supported());
    assert!(!SampleFormat::F64.is_supported());
}

#[test]
fn float_stays_float_and_integer_stays_integer() {
    assert_eq!(sample_format(SampleFormat::F32), SampleKind::Float);
    assert_eq!(sample_format(SampleFormat::F64), SampleKind::Float);
    assert_eq!(sample_format(SampleFormat::I16), SampleKind::Int);
    assert_eq!(sample_format(SampleFormat::U8), SampleKind::Int);
}

#[test]
fn wav_spec_follows_the_negotiated_configuration() {
    let spec = wav_spec_from_config(&StreamConfig {
        channels: 2,
        sample_rate: 44100,
        format: SampleFormat::I16,
    });
    assert_eq!(
        spec,
        WavSpec {
            channels: 2,
            sample_rate: 44100,
            bits_per_sample: 16,
            sample_format: SampleKind::Int,
        }
    );

    let spec = wav_spec_from_config(&StreamConfig {
        channels: 1,
        sample_rate: 48000,
        format: SampleFormat::F32,
    });
    assert_eq!(
        spec,
        WavSpec {
            channels: 1,
            sample_rate: 48000,
            bits_per_sample: 32,
            sample_format: SampleKind::Float,
        }
    );
}

#[test]
fn sample_sizes_match_the_encodings() {
    assert_eq!(SampleFormat::I8.sample_size(), 1);
    assert_eq!(SampleFormat::I16.sample_size(), 2);
    assert_eq!(SampleFormat::I32.sample_size(), 4);
    assert_eq!(SampleFormat::I64.sample_size(), 8);
    assert_eq!(SampleFormat::F32.sample_size(), 4);
    assert_eq!(SampleFormat::F64.sample_size(), 8);
}

fn fresh_sink() -> SampleSink {
    SampleSink::new(
        "tmp/sink.wav".to_string(),
        wav_spec_from_config(&StreamConfig {
            channels: 1,
            sample_rate: 48000,
            format: SampleFormat::F32,
        }),
    )
}

#[test]
fn sink_counts_what_it_accepts() {
    let mut sink = fresh_sink();
    assert_eq!(sink.samples_written, 0);
    sink.write(480);
    sink.write(520);
    assert_eq!(sink.samples_written, 1000);
}

#[test]
fn sink_accepts_the_largest_buffer() {
    let mut sink = fresh_sink();
    sink.write(u64::MAX);
    assert_eq!(sink.samples_written, u64::MAX);
}

#[test]
fn sink_finalizes_exactly_once() {
    let mut sink = fresh_sink();
    sink.write(120);
    let t = sink.finalize().expect("first finalize succeeds");
    assert_eq!(t.path, "tmp/sink.wav");
    assert_eq!(t.sample_count, 120);
    assert_eq!(sink.finalize().unwrap_err(), RecordError::AlreadyFinalized);
}

#[test]
fn writes_after_finalize_are_noops() {
    let mut sink = fresh_sink();
    sink.write(120);
    sink.finalize().expect("first finalize succeeds");
    sink.write(999);
    assert_eq!(sink.samples_written, 120);
}

#[test]
fn system_audio_sentinel_is_recognized() {
    let system = AudioDevice {
        is_default: true,
        is_input: false,
        id: "screencapturekit".to_string(),
        name: "Speakers".to_string(),
    };
    assert!(system.is_system_audio());
    let real = AudioDevice {
        is_default: true,
        is_input: true,
        id: "0".to_string(),
        name: "Microphone".to_string(),
    };
    assert!(!real.is_system_audio());
    let cloned = system.clone();
    assert_eq!(cloned.id, "screencapturekit");
    assert_eq!(cloned.name, "Speakers");
}
