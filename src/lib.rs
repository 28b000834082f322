//! Configuration and opening of low-latency audio streams: a builder whose
//! direction, channel count and sample format are type parameters, the
//! backend selection rule, and the negotiation of an open request with the
//! platform.
pub mod audio_stream_builder;
pub mod config;
pub mod definitions;
pub mod java_interface;
pub mod stream;

pub use audio_stream_builder::{
    AudioInputCallback, AudioOutputCallback, AudioStreamBuilder, AudioStreamBuilderAsync,
};
pub use config::{AudioStreamConfig, Setting};
pub use definitions::{
    wrap_status, AudioApi, AudioFormat, ChannelCount, ContentType, Direction, Error, Input,
    InputPreset, IsChannelCount, IsDirection, IsFormat, IsFrameType, Mono, Output,
    PerformanceMode, SampleRateConversionQuality, SessionId, SharingMode, Stereo, Unspecified,
    Usage, F32, UNSPECIFIED,
};
pub use java_interface::{AudioDeviceDirection, AudioDeviceInfo, AudioDeviceType};
pub use stream::{
    negotiate, AudioStreamAsync, AudioStreamSync, RawStreamParameters, StreamParameters,
};
