use oboe::{
    negotiate, wrap_status, AudioApi, AudioFormat, AudioInputCallback, AudioOutputCallback,
    AudioStreamBuilder, AudioStreamConfig, Direction, Error, Input, Mono, Output,
    RawStreamParameters, SessionId, Stereo, F32,
};

#[derive(Debug, PartialEq)]
struct MockHandle(u32);

struct Tone {
    invocations: usize,
}

impl AudioOutputCallback for Tone {
    type FrameType = (F32, Stereo);
}

struct Recorder;

impl AudioInputCallback for Recorder {
    type FrameType = (i16, Mono);
}

/// The parameters of a platform that grants every request as it stands.
fn granted(c: &AudioStreamConfig) -> RawStreamParameters {
    RawStreamParameters {
        direction: c.direction.raw(),
        channel_count: c.channel_count.raw(),
        format: c.format.raw(),
        sample_rate: c.sample_rate,
        frames_per_callback: c.frames_per_callback,
        buffer_capacity_in_frames: c.buffer_capacity_in_frames,
        audio_api: c.audio_api.raw(),
        sharing_mode: c.sharing_mode.raw(),
        performance_mode: c.performance_mode.raw(),
        session_id: c.session_id.raw(),
        device_id: c.device_id,
    }
}

#[test]
fn open_input_mono_i16_on_accepting_platform() {
    let mut b = AudioStreamBuilder::new().set_input().set_mono().set_i16();
    b.set_sample_rate(16000);
    let s = b
        .open_stream(|c: AudioStreamConfig| Ok((MockHandle(1), granted(&c))))
        .unwrap();
    let p = s.parameters();
    assert_eq!(p.direction, Direction::Input);
    assert_eq!(p.channel_count, 1);
    assert_eq!(p.format, AudioFormat::I16);
    assert_eq!(p.sample_rate, 16000);
    assert_eq!(s.handle(), &MockHandle(1));
}

#[test]
fn open_output_callback_stream_and_close() {
    let b = AudioStreamBuilder::new().set_output().set_stereo().set_f32();
    let ab = b.set_callback(Tone { invocations: 0 });
    assert!(ab.config().has_callback);
    let mut s = ab
        .open_stream(|c: AudioStreamConfig| Ok((MockHandle(2), granted(&c))))
        .unwrap();
    assert!(!s.is_closed());
    assert_eq!(s.parameters().channel_count, 2);
    assert_eq!(s.parameters().format, AudioFormat::F32);
    // the platform invokes the callback while the stream is open
    if let Some(cb) = s.callback_mut() {
        cb.invocations += 1;
    }
    assert_eq!(s.close(0), Ok(()));
    assert!(s.is_closed());
    // and tries once more after the close
    let mut after_close = 0;
    if let Some(cb) = s.callback_mut() {
        cb.invocations += 1;
        after_close += 1;
    }
    assert_eq!(after_close, 0);
    assert!(s.callback_mut().is_none());
    assert_eq!(s.handle(), &MockHandle(2));
}

#[test]
fn failed_close_keeps_callback_live() {
    let ab = AudioStreamBuilder::new().set_stereo().set_f32().set_callback(Tone { invocations: 0 });
    let mut s = ab
        .open_stream(|c: AudioStreamConfig| Ok((MockHandle(3), granted(&c))))
        .unwrap();
    assert_eq!(s.close(-869), Err(Error::PlatformFailure(-869)));
    assert!(!s.is_closed());
    let cb = s.callback_mut().unwrap();
    cb.invocations += 1;
    assert_eq!(s.callback_mut().unwrap().invocations, 1);
}

#[test]
fn input_callback_stream_owns_callback() {
    let ab = AudioStreamBuilder::new().set_input().set_mono().set_i16().set_callback(Recorder);
    assert_eq!(ab.config().direction, Direction::Input);
    let s = ab
        .open_stream(|c: AudioStreamConfig| Ok((MockHandle(4), granted(&c))))
        .unwrap();
    assert_eq!(s.parameters().direction, Direction::Input);
}

#[test]
fn fallback_backend_still_opens() {
    let mut b = AudioStreamBuilder::new().set_stereo().set_i16();
    b.set_audio_api(AudioApi::AAudio);
    // the platform reports the preferred backend unsupported
    let supported = false;
    let recommended = false;
    assert!(!b.will_use_aaudio(supported, recommended));
    let s = b
        .open_stream(|c: AudioStreamConfig| {
            let mut raw = granted(&c);
            raw.audio_api = AudioApi::OpenSLES.raw();
            Ok((MockHandle(5), raw))
        })
        .unwrap();
    assert_eq!(s.parameters().audio_api, AudioApi::OpenSLES);
}

#[test]
fn allocated_session_is_concrete() {
    let mut b = AudioStreamBuilder::new().set_mono().set_i16();
    b.set_session_id(SessionId::Allocate);
    let s = b
        .open_stream(|c: AudioStreamConfig| {
            let mut raw = granted(&c);
            raw.session_id = 42;
            Ok((MockHandle(6), raw))
        })
        .unwrap();
    assert_eq!(s.parameters().session_id, SessionId::Id(42));
}

#[test]
fn echoed_allocation_is_refused() {
    let mut b = AudioStreamBuilder::new().set_mono().set_i16();
    b.set_session_id(SessionId::Allocate);
    let r = b.open_stream(|c: AudioStreamConfig| Ok((MockHandle(7), granted(&c))));
    assert_eq!(r.err(), Some(Error::InvalidConfiguration));
    let mut b = AudioStreamBuilder::new().set_mono().set_i16();
    b.set_session_id(SessionId::Allocate);
    let r = b.open_stream(|c: AudioStreamConfig| {
        let mut raw = granted(&c);
        raw.session_id = -1;
        Ok((MockHandle(8), raw))
    });
    assert_eq!(r.err(), Some(Error::InvalidConfiguration));
}

#[test]
fn platform_refusal_carries_status() {
    let b = AudioStreamBuilder::new().set_stereo().set_f32();
    let r = b.open_stream(|_c: AudioStreamConfig| Err::<(MockHandle, RawStreamParameters), i32>(-898));
    assert_eq!(r.err(), Some(Error::PlatformFailure(-898)));
}

#[test]
fn substituted_parameters_are_reported() {
    let mut b = AudioStreamBuilder::new();
    b.set_sample_rate(44100);
    let s = b
        .open_stream(|c: AudioStreamConfig| {
            let mut raw = granted(&c);
            raw.sample_rate = 48000;
            raw.channel_count = 6;
            raw.format = AudioFormat::I24.raw();
            Ok((MockHandle(9), raw))
        })
        .unwrap();
    let p = s.parameters();
    assert_eq!(p.sample_rate, 48000);
    assert_eq!(p.channel_count, 6);
    assert_eq!(p.format, AudioFormat::I24);
    assert_eq!(p.direction, Direction::Output);
}

#[test]
fn substituted_frame_type_opens() {
    let mut b = AudioStreamBuilder::new().set_stereo().set_i16();
    b.set_sample_rate(44100);
    let s = b
        .open_stream(|c: AudioStreamConfig| {
            let mut raw = granted(&c);
            raw.channel_count = 1;
            raw.format = AudioFormat::F32.raw();
            raw.sample_rate = 48000;
            Ok((MockHandle(16), raw))
        })
        .unwrap();
    let p = s.parameters();
    assert_eq!(p.channel_count, 1);
    assert_eq!(p.format, AudioFormat::F32);
    assert_eq!(p.sample_rate, 48000);
    assert_eq!(s.handle(), &MockHandle(16));
}

#[test]
fn substituted_callback_stream_owns_callback() {
    let ab = AudioStreamBuilder::new().set_stereo().set_f32().set_callback(Tone { invocations: 5 });
    let mut s = ab
        .open_stream(|c: AudioStreamConfig| {
            let mut raw = granted(&c);
            raw.channel_count = 1;
            raw.format = AudioFormat::I16.raw();
            Ok((MockHandle(17), raw))
        })
        .unwrap();
    assert_eq!(s.parameters().channel_count, 1);
    assert_eq!(s.parameters().format, AudioFormat::I16);
    assert!(!s.is_closed());
    assert_eq!(s.callback_mut().unwrap().invocations, 5);
}

#[test]
fn unreadable_report_is_invalid() {
    let request = AudioStreamBuilder::new().set_stereo().set_i16().config();
    let mut raw = granted(&request);
    raw.direction = Direction::Input.raw();
    let r = negotiate::<Output, MockHandle>(&request, Ok((MockHandle(10), raw)));
    assert_eq!(r.err(), Some(Error::InvalidConfiguration));
    let mut raw = granted(&request);
    raw.performance_mode = 99;
    let r = negotiate::<Output, MockHandle>(&request, Ok((MockHandle(11), raw)));
    assert_eq!(r.err(), Some(Error::InvalidConfiguration));
    let mut raw = granted(&request);
    raw.format = 42;
    let r = negotiate::<Output, MockHandle>(&request, Ok((MockHandle(12), raw)));
    assert_eq!(r.err(), Some(Error::InvalidConfiguration));
    let mut raw = granted(&request);
    raw.session_id = -5;
    let r = negotiate::<Output, MockHandle>(&request, Ok((MockHandle(13), raw)));
    assert_eq!(r.err(), Some(Error::InvalidConfiguration));
    let mut raw = granted(&request);
    raw.channel_count = 1;
    let (h, p) = negotiate::<Output, MockHandle>(&request, Ok((MockHandle(14), raw))).unwrap();
    assert_eq!(h, MockHandle(14));
    assert_eq!(p.channel_count, 1);
}

#[test]
fn unspecified_request_reports_platform_choice() {
    let request = AudioStreamBuilder::new().config();
    let raw = granted(&request);
    let (_, p) = negotiate::<Output, MockHandle>(&request, Ok((MockHandle(15), raw))).unwrap();
    assert_eq!(p.format, AudioFormat::Unspecified);
    assert_eq!(p.channel_count, 0);
    let r = negotiate::<Input, MockHandle>(&request, Err(-889));
    assert_eq!(r.err(), Some(Error::PlatformFailure(-889)));
}

#[test]
fn status_codes() {
    assert_eq!(wrap_status(0), Ok(()));
    assert_eq!(wrap_status(-899), Err(Error::PlatformFailure(-899)));
    assert_eq!(wrap_status(3), Err(Error::PlatformFailure(3)));
}
