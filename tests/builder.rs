use oboe::{
    AudioApi, AudioFormat, AudioStreamBuilder, AudioStreamConfig, ChannelCount, ContentType,
    Direction, InputPreset, PerformanceMode, SampleRateConversionQuality, SessionId, SharingMode,
    Usage, UNSPECIFIED,
};

#[test]
fn default_builder_has_no_preference() {
    let b = AudioStreamBuilder::new();
    let c = b.config();
    assert_eq!(c.direction, Direction::Output);
    assert_eq!(c.channel_count, ChannelCount::Unspecified);
    assert_eq!(c.format, AudioFormat::Unspecified);
    assert_eq!(c.sharing_mode, SharingMode::Shared);
    assert!(c.channel_conversion_allowed);
    assert!(c.format_conversion_allowed);
    assert_eq!(c.sample_rate_conversion_quality, SampleRateConversionQuality::Off);
    assert_eq!(c.session_id, SessionId::NoSession);
    assert_eq!(c.audio_api, AudioApi::Unspecified);
    assert_eq!(c.sample_rate, UNSPECIFIED);
    assert!(!c.has_callback);
    assert_eq!(c, AudioStreamConfig::default());
}

#[test]
fn last_write_wins_per_field() {
    let mut b = AudioStreamBuilder::new();
    b.set_sample_rate(44100)
        .set_device_id(7)
        .set_sample_rate(48000)
        .set_exclusive()
        .set_frames_per_callback(192)
        .set_shared()
        .set_device_id(9);
    let c = b.config();
    assert_eq!(c.sample_rate, 48000);
    assert_eq!(c.device_id, 9);
    assert_eq!(c.sharing_mode, SharingMode::Shared);
    assert_eq!(c.frames_per_callback, 192);
    assert_eq!(c.buffer_capacity_in_frames, UNSPECIFIED);
}

#[test]
fn orthogonal_setters_commute() {
    let mut a = AudioStreamBuilder::new();
    a.set_usage(Usage::Game)
        .set_content_type(ContentType::Speech)
        .set_performance_mode(PerformanceMode::LowLatency)
        .set_input_preset(InputPreset::Unprocessed)
        .set_buffer_capacity_in_frames(1024)
        .set_channel_conversion_allowed(false)
        .set_format_conversion_allowed(false)
        .set_sample_rate_conversion_quality(SampleRateConversionQuality::Medium)
        .set_session_id(SessionId::Allocate)
        .set_audio_api(AudioApi::OpenSLES);
    let mut b = AudioStreamBuilder::new();
    b.set_audio_api(AudioApi::OpenSLES)
        .set_session_id(SessionId::Allocate)
        .set_sample_rate_conversion_quality(SampleRateConversionQuality::Medium)
        .set_format_conversion_allowed(false)
        .set_channel_conversion_allowed(false)
        .set_buffer_capacity_in_frames(1024)
        .set_input_preset(InputPreset::Unprocessed)
        .set_performance_mode(PerformanceMode::LowLatency)
        .set_content_type(ContentType::Speech)
        .set_usage(Usage::Game);
    assert_eq!(a.config(), b.config());
    assert_eq!(a.get_audio_api(), AudioApi::OpenSLES);
    assert_eq!(a.config().usage, Usage::Game);
}

#[test]
fn typed_setters_write_their_tags() {
    let b = AudioStreamBuilder::new().set_input().set_mono().set_i16();
    let c = b.config();
    assert_eq!(c.direction, Direction::Input);
    assert_eq!(c.channel_count, ChannelCount::Mono);
    assert_eq!(c.format, AudioFormat::I16);
    let b = b.set_output().set_stereo().set_f32();
    let c = b.config();
    assert_eq!(c.direction, Direction::Output);
    assert_eq!(c.channel_count, ChannelCount::Stereo);
    assert_eq!(c.format, AudioFormat::F32);
    let b = b.set_channel_count::<oboe::Unspecified>().set_format::<oboe::Unspecified>();
    assert_eq!(b.config().channel_count, ChannelCount::Unspecified);
    assert_eq!(b.config().format, AudioFormat::Unspecified);
}

#[test]
fn typed_setters_keep_orthogonal_fields() {
    let mut b = AudioStreamBuilder::new();
    b.set_sample_rate(22050).set_device_id(3);
    let b = b.set_input().set_stereo().set_f32();
    assert_eq!(b.config().sample_rate, 22050);
    assert_eq!(b.config().device_id, 3);
}

#[test]
fn backend_truth_table() {
    let mut b = AudioStreamBuilder::new();
    b.set_audio_api(AudioApi::AAudio);
    assert!(b.will_use_aaudio(true, false));
    assert!(b.will_use_aaudio(true, true));
    assert!(!b.will_use_aaudio(false, true));
    assert!(!b.will_use_aaudio(false, false));
    b.set_audio_api(AudioApi::Unspecified);
    assert!(b.will_use_aaudio(false, true));
    assert!(b.will_use_aaudio(true, true));
    assert!(!b.will_use_aaudio(true, false));
    assert!(!b.will_use_aaudio(false, false));
    b.set_audio_api(AudioApi::OpenSLES);
    assert!(!b.will_use_aaudio(true, true));
    assert!(!b.will_use_aaudio(false, false));
}

#[test]
fn raw_codes() {
    assert_eq!(Direction::Output.raw(), 0);
    assert_eq!(Direction::Input.raw(), 1);
    assert_eq!(ChannelCount::Stereo.raw(), 2);
    assert_eq!(AudioFormat::F32.raw(), 2);
    assert_eq!(AudioFormat::Invalid.raw(), -1);
    assert_eq!(AudioApi::AAudio.raw(), 2);
    assert_eq!(SharingMode::Exclusive.raw(), 0);
    assert_eq!(PerformanceMode::LowLatency.raw(), 12);
    assert_eq!(Usage::Assistant.raw(), 16);
    assert_eq!(ContentType::Sonification.raw(), 4);
    assert_eq!(InputPreset::VoicePerformance.raw(), 10);
    assert_eq!(SessionId::NoSession.raw(), -1);
    assert_eq!(SessionId::Allocate.raw(), 0);
    assert_eq!(SessionId::Id(77).raw(), 77);
    assert_eq!(SampleRateConversionQuality::Best.raw(), 5);
    assert_eq!(AudioFormat::from_raw(3), Some(AudioFormat::I24));
    assert_eq!(AudioFormat::from_raw(9), None);
    assert_eq!(PerformanceMode::from_raw(11), Some(PerformanceMode::PowerSaving));
    assert_eq!(PerformanceMode::from_raw(0), None);
    assert_eq!(SharingMode::from_raw(1), Some(SharingMode::Shared));
    assert_eq!(AudioApi::from_raw(3), None);
    assert_eq!(Direction::from_raw(-1), None);
}
