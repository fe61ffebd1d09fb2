//! Sample encodings and the derived WAV parameters.
//!
//! The audio subsystem negotiates one encoding per device. The recorder
//! stores samples in the same family and width, so the sink's WAV parameters
//! are a plain function of the negotiated configuration. Only 8/16/32-bit
//! integer and 32-bit float encodings are supported; any other encoding makes
//! `start` fail before a stream is opened.

use vstd::prelude::*;

verus! {

/// A device's native sample encoding, as the audio subsystem reports it.
#[derive(Clone, Copy, PartialEq, Eq, Structural, Debug)]
pub enum SampleFormat {
    I8,
    I16,
    I24,
    I32,
    I64,
    U8,
    U16,
    U32,
    U64,
    F32,
    F64,
}

/// The two sample families a WAV track can store.
#[derive(Clone, Copy, PartialEq, Eq, Structural, Debug)]
pub enum SampleKind {
    Int,
    Float,
}

/// The parameters of one WAV track.
#[derive(Clone, Copy, PartialEq, Eq, Structural, Debug)]
pub struct WavSpec {
    pub channels: u16,
    pub sample_rate: u32,
    pub bits_per_sample: u16,
    pub sample_format: SampleKind,
}

/// A device's negotiated stream configuration, reduced to what the recorder
/// reads of it.
#[derive(Clone, Copy, PartialEq, Eq, Structural, Debug)]
pub struct StreamConfig {
    pub channels: u16,
    pub sample_rate: u32,
    pub format: SampleFormat,
}

impl SampleFormat {
    /// Whether samples of this encoding are floating point.
    pub open spec fn is_float_spec(self) -> bool {
        self is F32 || self is F64
    }

    /// Whether samples of this encoding are floating point.
    pub fn is_float(self) -> (r: bool)
        ensures
            r == self.is_float_spec(),
    {
        match self {
            SampleFormat::F32 | SampleFormat::F64 => true,
            _ => false,
        }
    }

    /// The width in bytes of one sample of this encoding.
    pub open spec fn sample_size_spec(self) -> u16 {
        match self {
            SampleFormat::I8 => 1,
            SampleFormat::I16 => 2,
            SampleFormat::I24 => 4,
            SampleFormat::I32 => 4,
            SampleFormat::I64 => 8,
            SampleFormat::U8 => 1,
            SampleFormat::U16 => 2,
            SampleFormat::U32 => 4,
            SampleFormat::U64 => 8,
            SampleFormat::F32 => 4,
            SampleFormat::F64 => 8,
        }
    }

    /// The width in bytes of one sample of this encoding.
    pub fn sample_size(self) -> (r: u16)
        ensures
            r == self.sample_size_spec(),
    {
        match self {
            SampleFormat::I8 => 1,
            SampleFormat::I16 => 2,
            SampleFormat::I24 => 4,
            SampleFormat::I32 => 4,
            SampleFormat::I64 => 8,
            SampleFormat::U8 => 1,
            SampleFormat::U16 => 2,
            SampleFormat::U32 => 4,
            SampleFormat::U64 => 8,
            SampleFormat::F32 => 4,
            SampleFormat::F64 => 8,
        }
    }

    /// Whether the recorder can store samples of this encoding: 8/16/32-bit
    /// integer or 32-bit float.
    pub open spec fn is_supported_spec(self) -> bool {
        self is I8 || self is I16 || self is I32 || self is F32
    }

    /// Whether the recorder can store samples of this encoding.
    pub fn is_supported(self) -> (r: bool)
        ensures
            r == self.is_supported_spec(),
    {
        match self {
            SampleFormat::I8 | SampleFormat::I16 | SampleFormat::I32 | SampleFormat::F32 => true,
            _ => false,
        }
    }
}

/// The WAV sample family that stores samples of `format`: float stays float,
/// every integer family stays integer.
pub open spec fn sample_kind_spec(format: SampleFormat) -> SampleKind {
    if format.is_float_spec() {
        SampleKind::Float
    } else {
        SampleKind::Int
    }
}

/// The WAV sample family that stores samples of `format`.
pub fn sample_format(format: SampleFormat) -> (r: SampleKind)
    ensures
        r == sample_kind_spec(format),
{
    if format.is_float() {
        SampleKind::Float
    } else {
        SampleKind::Int
    }
}

/// The WAV parameters of the sink that records a stream of configuration
/// `config`: same channel count and rate, one stored sample per native
/// sample, of the same family and width.
pub open spec fn wav_spec_of(config: StreamConfig) -> WavSpec {
    WavSpec {
        channels: config.channels,
        sample_rate: config.sample_rate,
        bits_per_sample: (config.format.sample_size_spec() * 8) as u16,
        sample_format: sample_kind_spec(config.format),
    }
}

/// The WAV parameters of the sink that records a stream of configuration
/// `config`.
pub fn wav_spec_from_config(config: &StreamConfig) -> (r: WavSpec)
    ensures
        r == wav_spec_of(*config),
{
    WavSpec {
        channels: config.channels,
        sample_rate: config.sample_rate,
        bits_per_sample: config.format.sample_size() * 8,
        sample_format: sample_format(config.format),
    }
}

} // verus!
