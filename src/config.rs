//! The configuration record that a builder accumulates and hands to the
//! platform, and the laws of its orthogonal settings.
use vstd::prelude::*;

use crate::definitions::{
    AudioApi, AudioFormat, ChannelCount, ContentType, Direction, InputPreset, PerformanceMode,
    SampleRateConversionQuality, SessionId, SharingMode, Usage, UNSPECIFIED,
};

verus! {

/// Every negotiable stream parameter, as requested before opening.
#[derive(Clone, Copy, Debug, PartialEq, Eq, Structural)]
pub struct AudioStreamConfig {
    pub direction: Direction,
    pub channel_count: ChannelCount,
    pub format: AudioFormat,
    /// Frames per second, or `UNSPECIFIED`.
    pub sample_rate: i32,
    /// Frames per data callback, or `UNSPECIFIED`.
    pub frames_per_callback: i32,
    /// Largest buffer size in frames, or `UNSPECIFIED`.
    pub buffer_capacity_in_frames: i32,
    pub audio_api: AudioApi,
    pub sharing_mode: SharingMode,
    pub performance_mode: PerformanceMode,
    pub usage: Usage,
    pub content_type: ContentType,
    pub input_preset: InputPreset,
    pub session_id: SessionId,
    /// Physical device to route to, or `UNSPECIFIED`.
    pub device_id: i32,
    pub channel_conversion_allowed: bool,
    pub format_conversion_allowed: bool,
    pub sample_rate_conversion_quality: SampleRateConversionQuality,
    /// Whether a data callback is bound to the stream.
    pub has_callback: bool,
}

impl AudioStreamConfig {
    /// "No preference" on every negotiable field.
    pub open spec fn spec_default() -> AudioStreamConfig {
        AudioStreamConfig {
            direction: Direction::Output,
            channel_count: ChannelCount::Unspecified,
            format: AudioFormat::Unspecified,
            sample_rate: UNSPECIFIED,
            frames_per_callback: UNSPECIFIED,
            buffer_capacity_in_frames: UNSPECIFIED,
            audio_api: AudioApi::Unspecified,
            sharing_mode: SharingMode::Shared,
            performance_mode: PerformanceMode::Normal,
            usage: Usage::Media,
            content_type: ContentType::Music,
            input_preset: InputPreset::VoiceRecognition,
            session_id: SessionId::NoSession,
            device_id: UNSPECIFIED,
            channel_conversion_allowed: true,
            format_conversion_allowed: true,
            sample_rate_conversion_quality: SampleRateConversionQuality::Off,
            has_callback: false,
        }
    }

    /// The record after one orthogonal setting: that field takes the
    /// setting's value and every other field keeps its own.
    pub open spec fn with(self, s: Setting) -> AudioStreamConfig {
        match s {
            Setting::SampleRate(v) => AudioStreamConfig { sample_rate: v, ..self },
            Setting::FramesPerCallback(v) => AudioStreamConfig { frames_per_callback: v, ..self },
            Setting::BufferCapacityInFrames(v) => AudioStreamConfig {
                buffer_capacity_in_frames: v,
                ..self
            },
            Setting::AudioApi(v) => AudioStreamConfig { audio_api: v, ..self },
            Setting::SharingMode(v) => AudioStreamConfig { sharing_mode: v, ..self },
            Setting::PerformanceMode(v) => AudioStreamConfig { performance_mode: v, ..self },
            Setting::Usage(v) => AudioStreamConfig { usage: v, ..self },
            Setting::ContentType(v) => AudioStreamConfig { content_type: v, ..self },
            Setting::InputPreset(v) => AudioStreamConfig { input_preset: v, ..self },
            Setting::SessionId(v) => AudioStreamConfig { session_id: v, ..self },
            Setting::DeviceId(v) => AudioStreamConfig { device_id: v, ..self },
            Setting::ChannelConversionAllowed(v) => AudioStreamConfig {
                channel_conversion_allowed: v,
                ..self
            },
            Setting::FormatConversionAllowed(v) => AudioStreamConfig {
                format_conversion_allowed: v,
                ..self
            },
            Setting::SampleRateConversionQuality(v) => AudioStreamConfig {
                sample_rate_conversion_quality: v,
                ..self
            },
        }
    }

    /// The current value of the field that `probe` sets, as a setting.
    pub open spec fn read(self, probe: Setting) -> Setting {
        match probe {
            Setting::SampleRate(_) => Setting::SampleRate(self.sample_rate),
            Setting::FramesPerCallback(_) => Setting::FramesPerCallback(self.frames_per_callback),
            Setting::BufferCapacityInFrames(_) => Setting::BufferCapacityInFrames(
                self.buffer_capacity_in_frames,
            ),
            Setting::AudioApi(_) => Setting::AudioApi(self.audio_api),
            Setting::SharingMode(_) => Setting::SharingMode(self.sharing_mode),
            Setting::PerformanceMode(_) => Setting::PerformanceMode(self.performance_mode),
            Setting::Usage(_) => Setting::Usage(self.usage),
            Setting::ContentType(_) => Setting::ContentType(self.content_type),
            Setting::InputPreset(_) => Setting::InputPreset(self.input_preset),
            Setting::SessionId(_) => Setting::SessionId(self.session_id),
            Setting::DeviceId(_) => Setting::DeviceId(self.device_id),
            Setting::ChannelConversionAllowed(_) => Setting::ChannelConversionAllowed(
                self.channel_conversion_allowed,
            ),
            Setting::FormatConversionAllowed(_) => Setting::FormatConversionAllowed(
                self.format_conversion_allowed,
            ),
            Setting::SampleRateConversionQuality(_) => Setting::SampleRateConversionQuality(
                self.sample_rate_conversion_quality,
            ),
        }
    }
}

impl Default for AudioStreamConfig {
    fn default() -> (r: AudioStreamConfig)
        ensures
            r == AudioStreamConfig::spec_default(),
    {
        AudioStreamConfig {
            direction: Direction::Output,
            channel_count: ChannelCount::Unspecified,
            format: AudioFormat::Unspecified,
            sample_rate: UNSPECIFIED,
            frames_per_callback: UNSPECIFIED,
            buffer_capacity_in_frames: UNSPECIFIED,
            audio_api: AudioApi::Unspecified,
            sharing_mode: SharingMode::Shared,
            performance_mode: PerformanceMode::Normal,
            usage: Usage::Media,
            content_type: ContentType::Music,
            input_preset: InputPreset::VoiceRecognition,
            session_id: SessionId::NoSession,
            device_id: UNSPECIFIED,
            channel_conversion_allowed: true,
            format_conversion_allowed: true,
            sample_rate_conversion_quality: SampleRateConversionQuality::Off,
            has_callback: false,
        }
    }
}

/// One orthogonal setter call, with its argument: the setters that change a
/// single field in place and keep the builder's type.
#[derive(Clone, Copy, Debug, PartialEq, Eq, Structural)]
pub enum Setting {
    SampleRate(i32),
    FramesPerCallback(i32),
    BufferCapacityInFrames(i32),
    AudioApi(AudioApi),
    SharingMode(SharingMode),
    PerformanceMode(PerformanceMode),
    Usage(Usage),
    ContentType(ContentType),
    InputPreset(InputPreset),
    SessionId(SessionId),
    DeviceId(i32),
    ChannelConversionAllowed(bool),
    FormatConversionAllowed(bool),
    SampleRateConversionQuality(SampleRateConversionQuality),
}

/// Which field a setting writes.
pub open spec fn field_of(s: Setting) -> int {
    match s {
        Setting::SampleRate(_) => 0,
        Setting::FramesPerCallback(_) => 1,
        Setting::BufferCapacityInFrames(_) => 2,
        Setting::AudioApi(_) => 3,
        Setting::SharingMode(_) => 4,
        Setting::PerformanceMode(_) => 5,
        Setting::Usage(_) => 6,
        Setting::ContentType(_) => 7,
        Setting::InputPreset(_) => 8,
        Setting::SessionId(_) => 9,
        Setting::DeviceId(_) => 10,
        Setting::ChannelConversionAllowed(_) => 11,
        Setting::FormatConversionAllowed(_) => 12,
        Setting::SampleRateConversionQuality(_) => 13,
    }
}

/// The record after a sequence of settings, applied in order.
pub open spec fn apply_all(c: AudioStreamConfig, ss: Seq<Setting>) -> AudioStreamConfig
    decreases ss.len(),
{
    if ss.len() == 0 {
        c
    } else {
        apply_all(c, ss.drop_last()).with(ss.last())
    }
}

/// Index of the last setting in `ss` that writes the field of `probe`, or -1.
pub open spec fn last_write(ss: Seq<Setting>, probe: Setting) -> int
    decreases ss.len(),
{
    if ss.len() == 0 {
        -1
    } else if field_of(ss.last()) == field_of(probe) {
        ss.len() - 1
    } else {
        last_write(ss.drop_last(), probe)
    }
}

/// A setting writes its own field with its own value and leaves every other
/// field as it was.
pub proof fn lemma_setting_writes_one_field(c: AudioStreamConfig, s: Setting, probe: Setting)
    ensures
        field_of(s) == field_of(probe) ==> c.with(s).read(probe) == s,
        field_of(s) != field_of(probe) ==> c.with(s).read(probe) == c.read(probe),
        c.with(s).direction == c.direction,
        c.with(s).channel_count == c.channel_count,
        c.with(s).format == c.format,
        c.with(s).has_callback == c.has_callback,
{
}

/// Two records that agree on the typed fields and on every orthogonal field
/// are the same record.
proof fn lemma_same_reads(x: AudioStreamConfig, y: AudioStreamConfig)
    requires
        x.direction == y.direction,
        x.channel_count == y.channel_count,
        x.format == y.format,
        x.has_callback == y.has_callback,
        forall|p: Setting| #[trigger] x.read(p) == y.read(p),
    ensures
        x == y,
{
    assert(x.read(Setting::SampleRate(0)) == y.read(Setting::SampleRate(0)));
    assert(x.read(Setting::FramesPerCallback(0)) == y.read(Setting::FramesPerCallback(0)));
    assert(x.read(Setting::BufferCapacityInFrames(0)) == y.read(Setting::BufferCapacityInFrames(0)));
    assert(x.read(Setting::AudioApi(AudioApi::Unspecified)) == y.read(Setting::AudioApi(AudioApi::Unspecified)));
    assert(x.read(Setting::SharingMode(SharingMode::Shared)) == y.read(Setting::SharingMode(SharingMode::Shared)));
    assert(x.read(Setting::PerformanceMode(PerformanceMode::Normal)) == y.read(Setting::PerformanceMode(PerformanceMode::Normal)));
    assert(x.read(Setting::Usage(Usage::Media)) == y.read(Setting::Usage(Usage::Media)));
    assert(x.read(Setting::ContentType(ContentType::Music)) == y.read(Setting::ContentType(ContentType::Music)));
    assert(x.read(Setting::InputPreset(InputPreset::Generic)) == y.read(Setting::InputPreset(InputPreset::Generic)));
    assert(x.read(Setting::SessionId(SessionId::NoSession)) == y.read(Setting::SessionId(SessionId::NoSession)));
    assert(x.read(Setting::DeviceId(0)) == y.read(Setting::DeviceId(0)));
    assert(x.read(Setting::ChannelConversionAllowed(true)) == y.read(Setting::ChannelConversionAllowed(true)));
    assert(x.read(Setting::FormatConversionAllowed(true)) == y.read(Setting::FormatConversionAllowed(true)));
    assert(x.read(Setting::SampleRateConversionQuality(SampleRateConversionQuality::Off)) == y.read(Setting::SampleRateConversionQuality(SampleRateConversionQuality::Off)));
}

/// After any sequence of orthogonal settings, each field holds the value of
/// the last setting that wrote it, or its first value if none did.
pub proof fn lemma_last_write_wins(c: AudioStreamConfig, ss: Seq<Setting>, probe: Setting)
    ensures
        -1 <= last_write(ss, probe) < ss.len(),
        last_write(ss, probe) >= 0 ==> apply_all(c, ss).read(probe) == ss[last_write(
            ss,
            probe,
        )],
        last_write(ss, probe) == -1 ==> apply_all(c, ss).read(probe) == c.read(probe),
    decreases ss.len(),
{
    if ss.len() > 0 {
        let prev = ss.drop_last();
        lemma_last_write_wins(c, prev, probe);
        lemma_setting_writes_one_field(apply_all(c, prev), ss.last(), probe);
        if field_of(ss.last()) != field_of(probe) && last_write(prev, probe) >= 0 {
            assert(ss[last_write(prev, probe)] == prev[last_write(prev, probe)]);
        }
    }
}

/// Two settings of different fields give the same record in either order.
pub proof fn lemma_settings_commute(c: AudioStreamConfig, a: Setting, b: Setting)
    requires
        field_of(a) != field_of(b),
    ensures
        c.with(a).with(b) == c.with(b).with(a),
{
    let x = c.with(a).with(b);
    let y = c.with(b).with(a);
    assert forall|p: Setting| #[trigger] x.read(p) == y.read(p) by {
        lemma_setting_writes_one_field(c.with(a), b, p);
        lemma_setting_writes_one_field(c.with(b), a, p);
        lemma_setting_writes_one_field(c, a, p);
        lemma_setting_writes_one_field(c, b, p);
    }
    lemma_setting_writes_one_field(c.with(a), b, a);
    lemma_setting_writes_one_field(c.with(b), a, a);
    lemma_setting_writes_one_field(c, a, a);
    lemma_setting_writes_one_field(c, b, a);
    lemma_same_reads(x, y);
}

/// A later setting of a field replaces an earlier one.
pub proof fn lemma_setting_overwrites(c: AudioStreamConfig, a: Setting, b: Setting)
    requires
        field_of(a) == field_of(b),
    ensures
        c.with(a).with(b) == c.with(b),
{
    let x = c.with(a).with(b);
    let y = c.with(b);
    assert forall|p: Setting| #[trigger] x.read(p) == y.read(p) by {
        lemma_setting_writes_one_field(c.with(a), b, p);
        lemma_setting_writes_one_field(c, a, p);
        lemma_setting_writes_one_field(c, b, p);
    }
    lemma_setting_writes_one_field(c.with(a), b, a);
    lemma_setting_writes_one_field(c, a, a);
    lemma_setting_writes_one_field(c, b, a);
    lemma_same_reads(x, y);
}

} // verus!
