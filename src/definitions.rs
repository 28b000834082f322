//! Stream parameter enums, their platform codes, and the type-level markers
//! that the typed builder carries.
use vstd::prelude::*;

verus! {

/// The value that the platform reads as "no preference" for a numeric field.
pub const UNSPECIFIED: i32 = 0;

/// Direction of an audio stream.
#[derive(Clone, Copy, Debug, PartialEq, Eq, Structural)]
pub enum Direction {
    Output,
    Input,
}

impl Direction {
    pub open spec fn spec_raw(self) -> i32 {
        match self {
            Direction::Output => 0,
            Direction::Input => 1,
        }
    }

    /// The platform code of this direction.
    pub fn raw(self) -> (r: i32)
        ensures
            r == self.spec_raw(),
    {
        match self {
            Direction::Output => 0,
            Direction::Input => 1,
        }
    }

    pub open spec fn spec_from_raw(raw: i32) -> Option<Direction> {
        if raw == 0 {
            Some(Direction::Output)
        } else if raw == 1 {
            Some(Direction::Input)
        } else {
            None
        }
    }

    /// The direction with the given platform code, if there is one.
    pub fn from_raw(raw: i32) -> (r: Option<Direction>)
        ensures
            r == Direction::spec_from_raw(raw),
    {
        match raw {
            0 => Some(Direction::Output),
            1 => Some(Direction::Input),
            _ => None,
        }
    }
}

/// Requested number of channels.
#[derive(Clone, Copy, Debug, PartialEq, Eq, Structural)]
pub enum ChannelCount {
    Unspecified,
    Mono,
    Stereo,
}

impl ChannelCount {
    pub open spec fn spec_raw(self) -> i32 {
        match self {
            ChannelCount::Unspecified => 0,
            ChannelCount::Mono => 1,
            ChannelCount::Stereo => 2,
        }
    }

    /// The number of channels, or `UNSPECIFIED`.
    pub fn raw(self) -> (r: i32)
        ensures
            r == self.spec_raw(),
    {
        match self {
            ChannelCount::Unspecified => 0,
            ChannelCount::Mono => 1,
            ChannelCount::Stereo => 2,
        }
    }
}

/// Sample data format.
#[derive(Clone, Copy, Debug, PartialEq, Eq, Structural)]
pub enum AudioFormat {
    Invalid,
    Unspecified,
    I16,
    F32,
    I24,
    I32,
    IEC61937,
}

impl AudioFormat {
    pub open spec fn spec_raw(self) -> i32 {
        match self {
            AudioFormat::Invalid => -1i32,
            AudioFormat::Unspecified => 0,
            AudioFormat::I16 => 1,
            AudioFormat::F32 => 2,
            AudioFormat::I24 => 3,
            AudioFormat::I32 => 4,
            AudioFormat::IEC61937 => 5,
        }
    }

    /// The platform code of this format.
    pub fn raw(self) -> (r: i32)
        ensures
            r == self.spec_raw(),
    {
        match self {
            AudioFormat::Invalid => -1,
            AudioFormat::Unspecified => 0,
            AudioFormat::I16 => 1,
            AudioFormat::F32 => 2,
            AudioFormat::I24 => 3,
            AudioFormat::I32 => 4,
            AudioFormat::IEC61937 => 5,
        }
    }

    pub open spec fn spec_from_raw(raw: i32) -> Option<AudioFormat> {
        if raw == -1 {
            Some(AudioFormat::Invalid)
        } else if raw == 0 {
            Some(AudioFormat::Unspecified)
        } else if raw == 1 {
            Some(AudioFormat::I16)
        } else if raw == 2 {
            Some(AudioFormat::F32)
        } else if raw == 3 {
            Some(AudioFormat::I24)
        } else if raw == 4 {
            Some(AudioFormat::I32)
        } else if raw == 5 {
            Some(AudioFormat::IEC61937)
        } else {
            None
        }
    }

    /// The format with the given platform code, if there is one.
    pub fn from_raw(raw: i32) -> (r: Option<AudioFormat>)
        ensures
            r == AudioFormat::spec_from_raw(raw),
    {
        match raw {
            -1 => Some(AudioFormat::Invalid),
            0 => Some(AudioFormat::Unspecified),
            1 => Some(AudioFormat::I16),
            2 => Some(AudioFormat::F32),
            3 => Some(AudioFormat::I24),
            4 => Some(AudioFormat::I32),
            5 => Some(AudioFormat::IEC61937),
            _ => None,
        }
    }
}

/// The audio backend that services a stream.
#[derive(Clone, Copy, Debug, PartialEq, Eq, Structural)]
pub enum AudioApi {
    /// Let the platform choose the best backend.
    Unspecified,
    /// The fallback backend.
    OpenSLES,
    /// The preferred low-latency backend.
    AAudio,
}

impl AudioApi {
    pub open spec fn spec_raw(self) -> i32 {
        match self {
            AudioApi::Unspecified => 0,
            AudioApi::OpenSLES => 1,
            AudioApi::AAudio => 2,
        }
    }

    /// The platform code of this backend.
    pub fn raw(self) -> (r: i32)
        ensures
            r == self.spec_raw(),
    {
        match self {
            AudioApi::Unspecified => 0,
            AudioApi::OpenSLES => 1,
            AudioApi::AAudio => 2,
        }
    }

    pub open spec fn spec_from_raw(raw: i32) -> Option<AudioApi> {
        if raw == 0 {
            Some(AudioApi::Unspecified)
        } else if raw == 1 {
            Some(AudioApi::OpenSLES)
        } else if raw == 2 {
            Some(AudioApi::AAudio)
        } else {
            None
        }
    }

    /// The backend with the given platform code, if there is one.
    pub fn from_raw(raw: i32) -> (r: Option<AudioApi>)
        ensures
            r == AudioApi::spec_from_raw(raw),
    {
        match raw {
            0 => Some(AudioApi::Unspecified),
            1 => Some(AudioApi::OpenSLES),
            2 => Some(AudioApi::AAudio),
            _ => None,
        }
    }
}

/// Whether the stream may share the device with others.
#[derive(Clone, Copy, Debug, PartialEq, Eq, Structural)]
pub enum SharingMode {
    Exclusive,
    Shared,
}

impl SharingMode {
    pub open spec fn spec_raw(self) -> i32 {
        match self {
            SharingMode::Exclusive => 0,
            SharingMode::Shared => 1,
        }
    }

    /// The platform code of this mode.
    pub fn raw(self) -> (r: i32)
        ensures
            r == self.spec_raw(),
    {
        match self {
            SharingMode::Exclusive => 0,
            SharingMode::Shared => 1,
        }
    }

    pub open spec fn spec_from_raw(raw: i32) -> Option<SharingMode> {
        if raw == 0 {
            Some(SharingMode::Exclusive)
        } else if raw == 1 {
            Some(SharingMode::Shared)
        } else {
            None
        }
    }

    /// The mode with the given platform code, if there is one.
    pub fn from_raw(raw: i32) -> (r: Option<SharingMode>)
        ensures
            r == SharingMode::spec_from_raw(raw),
    {
        match raw {
            0 => Some(SharingMode::Exclusive),
            1 => Some(SharingMode::Shared),
            _ => None,
        }
    }
}

/// Requested performance level.
#[derive(Clone, Copy, Debug, PartialEq, Eq, Structural)]
pub enum PerformanceMode {
    /// No particular performance request.
    Normal,
    PowerSaving,
    LowLatency,
}

impl PerformanceMode {
    pub open spec fn spec_raw(self) -> i32 {
        match self {
            PerformanceMode::Normal => 10,
            PerformanceMode::PowerSaving => 11,
            PerformanceMode::LowLatency => 12,
        }
    }

    /// The platform code of this mode.
    pub fn raw(self) -> (r: i32)
        ensures
            r == self.spec_raw(),
    {
        match self {
            PerformanceMode::Normal => 10,
            PerformanceMode::PowerSaving => 11,
            PerformanceMode::LowLatency => 12,
        }
    }

    pub open spec fn spec_from_raw(raw: i32) -> Option<PerformanceMode> {
        if raw == 10 {
            Some(PerformanceMode::Normal)
        } else if raw == 11 {
            Some(PerformanceMode::PowerSaving)
        } else if raw == 12 {
            Some(PerformanceMode::LowLatency)
        } else {
            None
        }
    }

    /// The mode with the given platform code, if there is one.
    pub fn from_raw(raw: i32) -> (r: Option<PerformanceMode>)
        ensures
            r == PerformanceMode::spec_from_raw(raw),
    {
        match raw {
            10 => Some(PerformanceMode::Normal),
            11 => Some(PerformanceMode::PowerSaving),
            12 => Some(PerformanceMode::LowLatency),
            _ => None,
        }
    }
}

/// The intended use case of a stream.
#[derive(Clone, Copy, Debug, PartialEq, Eq, Structural)]
pub enum Usage {
    Media,
    VoiceCommunication,
    VoiceCommunicationSignalling,
    Alarm,
    Notification,
    NotificationRingtone,
    NotificationEvent,
    AssistanceAccessibility,
    AssistanceNavigationGuidance,
    AssistanceSonification,
    Game,
    Assistant,
}

impl Usage {
    pub open spec fn spec_raw(self) -> i32 {
        match self {
            Usage::Media => 1,
            Usage::VoiceCommunication => 2,
            Usage::VoiceCommunicationSignalling => 3,
            Usage::Alarm => 4,
            Usage::Notification => 5,
            Usage::NotificationRingtone => 6,
            Usage::NotificationEvent => 10,
            Usage::AssistanceAccessibility => 11,
            Usage::AssistanceNavigationGuidance => 12,
            Usage::AssistanceSonification => 13,
            Usage::Game => 14,
            Usage::Assistant => 16,
        }
    }

    /// The platform code of this usage.
    pub fn raw(self) -> (r: i32)
        ensures
            r == self.spec_raw(),
    {
        match self {
            Usage::Media => 1,
            Usage::VoiceCommunication => 2,
            Usage::VoiceCommunicationSignalling => 3,
            Usage::Alarm => 4,
            Usage::Notification => 5,
            Usage::NotificationRingtone => 6,
            Usage::NotificationEvent => 10,
            Usage::AssistanceAccessibility => 11,
            Usage::AssistanceNavigationGuidance => 12,
            Usage::AssistanceSonification => 13,
            Usage::Game => 14,
            Usage::Assistant => 16,
        }
    }
}

/// The kind of audio data that a stream carries.
#[derive(Clone, Copy, Debug, PartialEq, Eq, Structural)]
pub enum ContentType {
    Speech,
    Music,
    Movie,
    Sonification,
}

impl ContentType {
    pub open spec fn spec_raw(self) -> i32 {
        match self {
            ContentType::Speech => 1,
            ContentType::Music => 2,
            ContentType::Movie => 3,
            ContentType::Sonification => 4,
        }
    }

    /// The platform code of this content type.
    pub fn raw(self) -> (r: i32)
        ensures
            r == self.spec_raw(),
    {
        match self {
            ContentType::Speech => 1,
            ContentType::Music => 2,
            ContentType::Movie => 3,
            ContentType::Sonification => 4,
        }
    }
}

/// The capture configuration of an input stream.
#[derive(Clone, Copy, Debug, PartialEq, Eq, Structural)]
pub enum InputPreset {
    Generic,
    Camcorder,
    VoiceRecognition,
    VoiceCommunication,
    Unprocessed,
    VoicePerformance,
}

impl InputPreset {
    pub open spec fn spec_raw(self) -> i32 {
        match self {
            InputPreset::Generic => 1,
            InputPreset::Camcorder => 5,
            InputPreset::VoiceRecognition => 6,
            InputPreset::VoiceCommunication => 7,
            InputPreset::Unprocessed => 9,
            InputPreset::VoicePerformance => 10,
        }
    }

    /// The platform code of this preset.
    pub fn raw(self) -> (r: i32)
        ensures
            r == self.spec_raw(),
    {
        match self {
            InputPreset::Generic => 1,
            InputPreset::Camcorder => 5,
            InputPreset::VoiceRecognition => 6,
            InputPreset::VoiceCommunication => 7,
            InputPreset::Unprocessed => 9,
            InputPreset::VoicePerformance => 10,
        }
    }
}

/// Session for sharing effects processing between streams.
#[derive(Clone, Copy, Debug, PartialEq, Eq, Structural)]
pub enum SessionId {
    /// No session.
    NoSession,
    /// Ask the platform to allocate a session when the stream is opened.
    Allocate,
    /// A session that the platform allocated earlier.
    Id(i32),
}

impl SessionId {
    pub open spec fn spec_raw(self) -> i32 {
        match self {
            SessionId::NoSession => -1i32,
            SessionId::Allocate => 0,
            SessionId::Id(id) => id,
        }
    }

    /// The platform code of this session request.
    pub fn raw(self) -> (r: i32)
        ensures
            r == self.spec_raw(),
    {
        match self {
            SessionId::NoSession => -1,
            SessionId::Allocate => 0,
            SessionId::Id(id) => id,
        }
    }
}

/// Quality of the sample rate converter.
#[derive(Clone, Copy, Debug, PartialEq, Eq, Structural)]
pub enum SampleRateConversionQuality {
    /// No sample rate conversion in this layer.
    Off,
    Fastest,
    Low,
    Medium,
    High,
    Best,
}

impl SampleRateConversionQuality {
    pub open spec fn spec_raw(self) -> i32 {
        match self {
            SampleRateConversionQuality::Off => 0,
            SampleRateConversionQuality::Fastest => 1,
            SampleRateConversionQuality::Low => 2,
            SampleRateConversionQuality::Medium => 3,
            SampleRateConversionQuality::High => 4,
            SampleRateConversionQuality::Best => 5,
        }
    }

    /// The platform code of this quality.
    pub fn raw(self) -> (r: i32)
        ensures
            r == self.spec_raw(),
    {
        match self {
            SampleRateConversionQuality::Off => 0,
            SampleRateConversionQuality::Fastest => 1,
            SampleRateConversionQuality::Low => 2,
            SampleRateConversionQuality::Medium => 3,
            SampleRateConversionQuality::High => 4,
            SampleRateConversionQuality::Best => 5,
        }
    }
}

/// Why a stream could not be opened or closed.
#[derive(Clone, Copy, Debug, PartialEq, Eq, Structural)]
pub enum Error {
    /// The platform accepted the request but reported a stream that cannot
    /// stand for it: an unknown code, another direction, or no session for an
    /// allocation request. Substituted values, a channel count or a format
    /// included, are no error.
    InvalidConfiguration,
    /// The platform refused the request; carries its raw status code.
    PlatformFailure(i32),
}

/// The result of a platform call, from its raw status code: zero is success.
pub open spec fn spec_status(status: i32) -> Result<(), Error> {
    if status == 0 {
        Ok(())
    } else {
        Err(Error::PlatformFailure(status))
    }
}

/// Turns a raw platform status into a `Result`.
pub fn wrap_status(status: i32) -> (r: Result<(), Error>)
    ensures
        r == spec_status(status),
{
    if status == 0 {
        Ok(())
    } else {
        Err(Error::PlatformFailure(status))
    }
}

/// Type-level direction of a builder or a stream.
pub trait IsDirection {
    spec fn spec_direction() -> Direction;

    fn direction() -> (r: Direction)
        ensures
            r == Self::spec_direction(),
    ;
}

/// Type-level channel count of a builder or a stream.
pub trait IsChannelCount {
    spec fn spec_channel_count() -> ChannelCount;

    fn channel_count() -> (r: ChannelCount)
        ensures
            r == Self::spec_channel_count(),
    ;
}

/// Type-level sample format of a builder or a stream.
pub trait IsFormat {
    spec fn spec_format() -> AudioFormat;

    fn format() -> (r: AudioFormat)
        ensures
            r == Self::spec_format(),
    ;
}

/// A frame type: a sample format together with a channel count.
pub trait IsFrameType {
    spec fn spec_format() -> AudioFormat;

    spec fn spec_channel_count() -> ChannelCount;

    fn format() -> (r: AudioFormat)
        ensures
            r == Self::spec_format(),
    ;

    fn channel_count() -> (r: ChannelCount)
        ensures
            r == Self::spec_channel_count(),
    ;
}

/// Marker of an axis that is left to the platform.
pub struct Unspecified;

/// Marker of the capture direction.
pub struct Input;

/// Marker of the playback direction.
pub struct Output;

/// Marker of one channel.
pub struct Mono;

/// Marker of two channels.
pub struct Stereo;

/// Marker of 32-bit floating-point samples.
pub struct F32;

impl IsDirection for Input {
    open spec fn spec_direction() -> Direction {
        Direction::Input
    }

    fn direction() -> (r: Direction) {
        Direction::Input
    }
}

impl IsDirection for Output {
    open spec fn spec_direction() -> Direction {
        Direction::Output
    }

    fn direction() -> (r: Direction) {
        Direction::Output
    }
}

impl IsChannelCount for Unspecified {
    open spec fn spec_channel_count() -> ChannelCount {
        ChannelCount::Unspecified
    }

    fn channel_count() -> (r: ChannelCount) {
        ChannelCount::Unspecified
    }
}

impl IsChannelCount for Mono {
    open spec fn spec_channel_count() -> ChannelCount {
        ChannelCount::Mono
    }

    fn channel_count() -> (r: ChannelCount) {
        ChannelCount::Mono
    }
}

impl IsChannelCount for Stereo {
    open spec fn spec_channel_count() -> ChannelCount {
        ChannelCount::Stereo
    }

    fn channel_count() -> (r: ChannelCount) {
        ChannelCount::Stereo
    }
}

impl IsFormat for Unspecified {
    open spec fn spec_format() -> AudioFormat {
        AudioFormat::Unspecified
    }

    fn format() -> (r: AudioFormat) {
        AudioFormat::Unspecified
    }
}

impl IsFormat for i16 {
    open spec fn spec_format() -> AudioFormat {
        AudioFormat::I16
    }

    fn format() -> (r: AudioFormat) {
        AudioFormat::I16
    }
}

impl IsFormat for F32 {
    open spec fn spec_format() -> AudioFormat {
        AudioFormat::F32
    }

    fn format() -> (r: AudioFormat) {
        AudioFormat::F32
    }
}

impl<T: IsFormat, C: IsChannelCount> IsFrameType for (T, C) {
    open spec fn spec_format() -> AudioFormat {
        T::spec_format()
    }

    open spec fn spec_channel_count() -> ChannelCount {
        C::spec_channel_count()
    }

    fn format() -> (r: AudioFormat) {
        T::format()
    }

    fn channel_count() -> (r: ChannelCount) {
        C::channel_count()
    }
}

} // verus!
