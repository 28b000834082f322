//! The typed stream builder: direction, channel count and sample format are
//! type parameters; every other parameter is set in place.
use vstd::prelude::*;

use crate::config::{AudioStreamConfig, Setting};
use crate::definitions::{
    AudioApi, Error, Input, IsChannelCount, IsDirection, IsFormat, IsFrameType, Mono, Output,
    PerformanceMode, SampleRateConversionQuality, SessionId, SharingMode, Stereo, Unspecified,
    Usage, ContentType, InputPreset, F32,
};
use crate::stream::{
    negotiate, spec_negotiate, AudioStreamAsync, AudioStreamSync, RawStreamParameters,
    StreamParameters,
};
use core::marker::PhantomData;

verus! {

/// A handler of captured audio, declaring the frame type it takes.
pub trait AudioInputCallback {
    type FrameType: IsFrameType;
}

/// A producer of audio to play, declaring the frame type it fills.
pub trait AudioOutputCallback {
    type FrameType: IsFrameType;
}

/// The backend choice for a request: the preferred low-latency backend is
/// used when it was asked for and is supported, or when nothing was asked
/// for and it is recommended.
pub open spec fn spec_will_use_aaudio(api: AudioApi, supported: bool, recommended: bool) -> bool {
    (api == AudioApi::AAudio && supported) || (api == AudioApi::Unspecified && recommended)
}

/// Factory for an audio stream of direction `D`, channel count `C` and
/// sample format `T`.
pub struct AudioStreamBuilder<D, C, T> {
    config: AudioStreamConfig,
    _phantom: PhantomData<(D, C, T)>,
}

impl<D, C, T> View for AudioStreamBuilder<D, C, T> {
    type V = AudioStreamConfig;

    closed spec fn view(&self) -> AudioStreamConfig {
        self.config
    }
}

impl AudioStreamBuilder<Output, Unspecified, Unspecified> {
    /// A builder with no preference on any parameter.
    pub fn new() -> (r: Self)
        ensures
            r@ == AudioStreamConfig::spec_default(),
            r.wf(),
    {
        AudioStreamBuilder { config: AudioStreamConfig::default(), _phantom: PhantomData }
    }
}

impl<D: IsDirection, C: IsChannelCount, T: IsFormat> AudioStreamBuilder<D, C, T> {
    /// The record's typed fields hold the builder's type parameters, and no
    /// callback is bound.
    pub open spec fn wf(&self) -> bool {
        &&& self@.direction == D::spec_direction()
        &&& self@.channel_count == C::spec_channel_count()
        &&& self@.format == T::spec_format()
        &&& !self@.has_callback
    }
}

impl<D, C, T> AudioStreamBuilder<D, C, T> {
    /// Requests the channel count of marker `X`.
    pub fn set_channel_count<X: IsChannelCount>(self) -> (r: AudioStreamBuilder<D, X, T>)
        ensures
            r@ == (AudioStreamConfig { channel_count: X::spec_channel_count(), ..self@ }),
    {
        let mut config = self.config;
        config.channel_count = X::channel_count();
        AudioStreamBuilder { config, _phantom: PhantomData }
    }

    pub fn set_mono(self) -> (r: AudioStreamBuilder<D, Mono, T>)
        ensures
            r@ == (AudioStreamConfig { channel_count: Mono::spec_channel_count(), ..self@ }),
    {
        self.set_channel_count::<Mono>()
    }

    pub fn set_stereo(self) -> (r: AudioStreamBuilder<D, Stereo, T>)
        ensures
            r@ == (AudioStreamConfig { channel_count: Stereo::spec_channel_count(), ..self@ }),
    {
        self.set_channel_count::<Stereo>()
    }

    /// Requests the direction of marker `X`.
    pub fn set_direction<X: IsDirection>(self) -> (r: AudioStreamBuilder<X, C, T>)
        ensures
            r@ == (AudioStreamConfig { direction: X::spec_direction(), ..self@ }),
    {
        let mut config = self.config;
        config.direction = X::direction();
        AudioStreamBuilder { config, _phantom: PhantomData }
    }

    pub fn set_input(self) -> (r: AudioStreamBuilder<Input, C, T>)
        ensures
            r@ == (AudioStreamConfig { direction: Input::spec_direction(), ..self@ }),
    {
        self.set_direction::<Input>()
    }

    pub fn set_output(self) -> (r: AudioStreamBuilder<Output, C, T>)
        ensures
            r@ == (AudioStreamConfig { direction: Output::spec_direction(), ..self@ }),
    {
        self.set_direction::<Output>()
    }

    /// Requests the sample format of marker `X`.
    pub fn set_format<X: IsFormat>(self) -> (r: AudioStreamBuilder<D, C, X>)
        ensures
            r@ == (AudioStreamConfig { format: X::spec_format(), ..self@ }),
    {
        let mut config = self.config;
        config.format = X::format();
        AudioStreamBuilder { config, _phantom: PhantomData }
    }

    pub fn set_i16(self) -> (r: AudioStreamBuilder<D, C, i16>)
        ensures
            r@ == (AudioStreamConfig { format: i16::spec_format(), ..self@ }),
    {
        self.set_format::<i16>()
    }

    pub fn set_f32(self) -> (r: AudioStreamBuilder<D, C, F32>)
        ensures
            r@ == (AudioStreamConfig { format: F32::spec_format(), ..self@ }),
    {
        self.set_format::<F32>()
    }

    /// Requests a sample rate in frames per second, or `UNSPECIFIED`.
    pub fn set_sample_rate(&mut self, sample_rate: i32) -> (r: &mut Self)
        ensures
            r@ == old(self)@.with(Setting::SampleRate(sample_rate)),
            *final(self) == *final(r),
    {
        self.config.sample_rate = sample_rate;
        self
    }

    /// Requests a number of frames for each data callback, or `UNSPECIFIED`.
    pub fn set_frames_per_callback(&mut self, frames_per_callback: i32) -> (r: &mut Self)
        ensures
            r@ == old(self)@.with(Setting::FramesPerCallback(frames_per_callback)),
            *final(self) == *final(r),
    {
        self.config.frames_per_callback = frames_per_callback;
        self
    }

    /// Requests the largest buffer size in frames, or `UNSPECIFIED`.
    pub fn set_buffer_capacity_in_frames(&mut self, buffer_capacity_in_frames: i32) -> (r:
        &mut Self)
        ensures
            r@ == old(self)@.with(Setting::BufferCapacityInFrames(buffer_capacity_in_frames)),
            *final(self) == *final(r),
    {
        self.config.buffer_capacity_in_frames = buffer_capacity_in_frames;
        self
    }

    /// The record that the builder has accumulated.
    pub fn config(&self) -> (r: AudioStreamConfig)
        ensures
            r == self@,
    {
        self.config
    }

    /// The backend that will be requested; the platform makes the choice.
    pub fn get_audio_api(&self) -> (r: AudioApi)
        ensures
            r == self@.audio_api,
    {
        self.config.audio_api
    }

    /// Requests a backend, or leaves the choice to the platform.
    pub fn set_audio_api(&mut self, audio_api: AudioApi) -> (r: &mut Self)
        ensures
            r@ == old(self)@.with(Setting::AudioApi(audio_api)),
            *final(self) == *final(r),
    {
        self.config.audio_api = audio_api;
        self
    }

    pub fn set_sharing_mode(&mut self, sharing_mode: SharingMode) -> (r: &mut Self)
        ensures
            r@ == old(self)@.with(Setting::SharingMode(sharing_mode)),
            *final(self) == *final(r),
    {
        self.config.sharing_mode = sharing_mode;
        self
    }

    pub fn set_shared(&mut self) -> (r: &mut Self)
        ensures
            r@ == old(self)@.with(Setting::SharingMode(SharingMode::Shared)),
            *final(self) == *final(r),
    {
        self.set_sharing_mode(SharingMode::Shared)
    }

    pub fn set_exclusive(&mut self) -> (r: &mut Self)
        ensures
            r@ == old(self)@.with(Setting::SharingMode(SharingMode::Exclusive)),
            *final(self) == *final(r),
    {
        self.set_sharing_mode(SharingMode::Exclusive)
    }

    pub fn set_performance_mode(&mut self, performance_mode: PerformanceMode) -> (r: &mut Self)
        ensures
            r@ == old(self)@.with(Setting::PerformanceMode(performance_mode)),
            *final(self) == *final(r),
    {
        self.config.performance_mode = performance_mode;
        self
    }

    pub fn set_usage(&mut self, usage: Usage) -> (r: &mut Self)
        ensures
            r@ == old(self)@.with(Setting::Usage(usage)),
            *final(self) == *final(r),
    {
        self.config.usage = usage;
        self
    }

    pub fn set_content_type(&mut self, content_type: ContentType) -> (r: &mut Self)
        ensures
            r@ == old(self)@.with(Setting::ContentType(content_type)),
            *final(self) == *final(r),
    {
        self.config.content_type = content_type;
        self
    }

    pub fn set_input_preset(&mut self, input_preset: InputPreset) -> (r: &mut Self)
        ensures
            r@ == old(self)@.with(Setting::InputPreset(input_preset)),
            *final(self) == *final(r),
    {
        self.config.input_preset = input_preset;
        self
    }

    /// Requests a session: none, a new one, or one allocated before.
    pub fn set_session_id(&mut self, session_id: SessionId) -> (r: &mut Self)
        ensures
            r@ == old(self)@.with(Setting::SessionId(session_id)),
            *final(self) == *final(r),
    {
        self.config.session_id = session_id;
        self
    }

    /// Routes the stream to a device, or leaves it `UNSPECIFIED`.
    pub fn set_device_id(&mut self, device_id: i32) -> (r: &mut Self)
        ensures
            r@ == old(self)@.with(Setting::DeviceId(device_id)),
            *final(self) == *final(r),
    {
        self.config.device_id = device_id;
        self
    }

    pub fn set_channel_conversion_allowed(&mut self, allowed: bool) -> (r: &mut Self)
        ensures
            r@ == old(self)@.with(Setting::ChannelConversionAllowed(allowed)),
            *final(self) == *final(r),
    {
        self.config.channel_conversion_allowed = allowed;
        self
    }

    pub fn set_format_conversion_allowed(&mut self, allowed: bool) -> (r: &mut Self)
        ensures
            r@ == old(self)@.with(Setting::FormatConversionAllowed(allowed)),
            *final(self) == *final(r),
    {
        self.config.format_conversion_allowed = allowed;
        self
    }

    pub fn set_sample_rate_conversion_quality(&mut self, quality: SampleRateConversionQuality)
        -> (r: &mut Self)
        ensures
            r@ == old(self)@.with(Setting::SampleRateConversionQuality(quality)),
            *final(self) == *final(r),
    {
        self.config.sample_rate_conversion_quality = quality;
        self
    }

    /// Whether the preferred backend will serve the stream, given what the
    /// platform reports of that backend on this device.
    pub fn will_use_aaudio(&self, aaudio_supported: bool, aaudio_recommended: bool) -> (r: bool)
        ensures
            r == spec_will_use_aaudio(self@.audio_api, aaudio_supported, aaudio_recommended),
    {
        (self.config.audio_api == AudioApi::AAudio && aaudio_supported) || (self.config.audio_api
            == AudioApi::Unspecified && aaudio_recommended)
    }
}

/// How an open of a synchronous stream ends, given the platform's answer.
pub open spec fn spec_open_sync<D: IsDirection, FT, H>(
    request: AudioStreamConfig,
    outcome: Result<(H, RawStreamParameters), i32>,
    r: Result<AudioStreamSync<D, FT, H>, Error>,
) -> bool {
    match r {
        Ok(s) => spec_negotiate::<D, H>(request, outcome) == Ok::<(H, StreamParameters), Error>((s.spec_handle(), s@)),
        Err(e) => spec_negotiate::<D, H>(request, outcome) == Err::<(H, StreamParameters), Error>(e),
    }
}

/// How an open of a callback-driven stream ends, given the platform's answer:
/// on success the stream owns the callback and is not closed.
pub open spec fn spec_open_async<D: IsDirection, F, H>(
    request: AudioStreamConfig,
    outcome: Result<(H, RawStreamParameters), i32>,
    callback: F,
    r: Result<AudioStreamAsync<D, F, H>, Error>,
) -> bool {
    match r {
        Ok(s) => {
            &&& spec_negotiate::<D, H>(request, outcome) == Ok::<(H, StreamParameters), Error>((s.spec_handle(), s@))
            &&& s.spec_callback() == callback
            &&& !s.spec_closed()
        },
        Err(e) => spec_negotiate::<D, H>(request, outcome) == Err::<(H, StreamParameters), Error>(e),
    }
}

/// A stream opened for a request that asked for a new session carries the
/// session that the platform allocated.
pub open spec fn allocation_resolved(request: AudioStreamConfig, p: StreamParameters) -> bool {
    request.session_id == SessionId::Allocate ==> match p.session_id {
        SessionId::Id(id) => id > 0,
        _ => false,
    }
}

impl<D: IsDirection, C: IsChannelCount, T: IsFormat> AudioStreamBuilder<D, C, T> {
    /// Hands the request to the platform, once, and turns its answer
    /// into a stream for blocking reads or writes.
    pub fn open_stream<H, P>(self, platform: P) -> (r: Result<AudioStreamSync<D, (T, C), H>, Error>)
        where
            P: FnOnce(AudioStreamConfig) -> Result<(H, RawStreamParameters), i32>,
        requires
            platform.requires((self@,)),
        ensures
            exists|outcome|
                #[trigger] platform.ensures((self@,), outcome) && spec_open_sync::<
                    D,
                    (T, C),
                    H,
                >(self@, outcome, r),
            r is Ok ==> allocation_resolved(self@, r->Ok_0@),
    {
        let request = self.config;
        let outcome = platform(request);
        match negotiate::<D, H>(&request, outcome) {
            Ok((handle, params)) => Ok(AudioStreamSync::wrap(handle, params)),
            Err(e) => Err(e),
        }
    }
}

impl<C: IsChannelCount, T: IsFormat> AudioStreamBuilder<Input, C, T> {
    /// Binds a handler of captured audio whose frame type is this builder's
    /// format and channel count; the builder takes ownership of it.
    pub fn set_callback<F>(self, stream_callback: F) -> (r: AudioStreamBuilderAsync<Input, F>)
        where
            F: AudioInputCallback<FrameType = (T, C)>,
        ensures
            r@ == (AudioStreamConfig { has_callback: true, ..self@ }),
            r.spec_callback() == stream_callback,
            self.wf() ==> r.wf(),
    {
        let mut config = self.config;
        config.has_callback = true;
        AudioStreamBuilderAsync { config, callback: stream_callback, _phantom: PhantomData }
    }
}

impl<C: IsChannelCount, T: IsFormat> AudioStreamBuilder<Output, C, T> {
    /// Binds a producer of audio whose frame type is this builder's format and
    /// channel count; the builder takes ownership of it.
    pub fn set_callback<F>(self, stream_callback: F) -> (r: AudioStreamBuilderAsync<Output, F>)
        where
            F: AudioOutputCallback<FrameType = (T, C)>,
        ensures
            r@ == (AudioStreamConfig { has_callback: true, ..self@ }),
            r.spec_callback() == stream_callback,
            self.wf() ==> r.wf(),
    {
        let mut config = self.config;
        config.has_callback = true;
        AudioStreamBuilderAsync { config, callback: stream_callback, _phantom: PhantomData }
    }
}

/// Factory for a callback-driven audio stream of direction `D`; owns the
/// callback `F` until the stream takes it over.
pub struct AudioStreamBuilderAsync<D, F> {
    config: AudioStreamConfig,
    callback: F,
    _phantom: PhantomData<D>,
}

impl<D, F> View for AudioStreamBuilderAsync<D, F> {
    type V = AudioStreamConfig;

    closed spec fn view(&self) -> AudioStreamConfig {
        self.config
    }
}

impl<D, F> AudioStreamBuilderAsync<D, F> {
    pub closed spec fn spec_callback(&self) -> F {
        self.callback
    }

    /// The record that the builder has accumulated.
    pub fn config(&self) -> (r: AudioStreamConfig)
        ensures
            r == self@,
    {
        self.config
    }
}

impl<F: AudioInputCallback> AudioStreamBuilderAsync<Input, F> {
    /// The record describes a capture stream whose frame type is the
    /// callback's, with the callback bound.
    pub open spec fn wf(&self) -> bool {
        &&& self@.direction == Input::spec_direction()
        &&& self@.channel_count == F::FrameType::spec_channel_count()
        &&& self@.format == F::FrameType::spec_format()
        &&& self@.has_callback
    }
}

impl<F: AudioInputCallback + Send> AudioStreamBuilderAsync<Input, F> {
    /// Hands the request to the platform, once, and turns its answer
    /// into a stream that owns the callback.
    pub fn open_stream<H, P>(self, platform: P) -> (r: Result<AudioStreamAsync<Input, F, H>, Error>)
        where
            P: FnOnce(AudioStreamConfig) -> Result<(H, RawStreamParameters), i32>,
        requires
            platform.requires((self@,)),
        ensures
            exists|outcome|
                #[trigger] platform.ensures((self@,), outcome) && spec_open_async::<Input, F, H>(self@, outcome, self.spec_callback(), r),
            r is Ok ==> allocation_resolved(self@, r->Ok_0@),
    {
        let request = self.config;
        let outcome = platform(request);
        match negotiate::<Input, H>(&request, outcome) {
            Ok((handle, params)) => Ok(AudioStreamAsync::wrap(handle, self.callback, params)),
            Err(e) => Err(e),
        }
    }
}

impl<F: AudioOutputCallback> AudioStreamBuilderAsync<Output, F> {
    /// The record describes a playback stream whose frame type is the
    /// callback's, with the callback bound.
    pub open spec fn wf(&self) -> bool {
        &&& self@.direction == Output::spec_direction()
        &&& self@.channel_count == F::FrameType::spec_channel_count()
        &&& self@.format == F::FrameType::spec_format()
        &&& self@.has_callback
    }
}

impl<F: AudioOutputCallback + Send> AudioStreamBuilderAsync<Output, F> {
    /// Hands the request to the platform, once, and turns its answer
    /// into a stream that owns the callback.
    pub fn open_stream<H, P>(self, platform: P) -> (r: Result<AudioStreamAsync<Output, F, H>, Error>)
        where
            P: FnOnce(AudioStreamConfig) -> Result<(H, RawStreamParameters), i32>,
        requires
            platform.requires((self@,)),
        ensures
            exists|outcome|
                #[trigger] platform.ensures((self@,), outcome) && spec_open_async::<Output, F, H>(self@, outcome, self.spec_callback(), r),
            r is Ok ==> allocation_resolved(self@, r->Ok_0@),
    {
        let request = self.config;
        let outcome = platform(request);
        match negotiate::<Output, H>(&request, outcome) {
            Ok((handle, params)) => Ok(AudioStreamAsync::wrap(handle, self.callback, params)),
            Err(e) => Err(e),
        }
    }
}

} // verus!
