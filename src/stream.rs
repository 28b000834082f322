//! Negotiation of an open request and the stream objects it yields.
use vstd::prelude::*;

use crate::config::AudioStreamConfig;
use crate::definitions::{
    spec_status, AudioApi, AudioFormat, Direction, Error, IsDirection, PerformanceMode,
    SessionId, SharingMode,
};
use core::marker::PhantomData;

verus! {

/// The parameters of an opened stream as the platform reports them, in its
/// own codes.
#[derive(Clone, Copy, Debug, PartialEq, Eq, Structural)]
pub struct RawStreamParameters {
    pub direction: i32,
    pub channel_count: i32,
    pub format: i32,
    pub sample_rate: i32,
    pub frames_per_callback: i32,
    pub buffer_capacity_in_frames: i32,
    pub audio_api: i32,
    pub sharing_mode: i32,
    pub performance_mode: i32,
    pub session_id: i32,
    pub device_id: i32,
}

/// The parameters that an opened stream actually has: the single source of
/// truth after opening, which may differ from the request.
#[derive(Clone, Copy, Debug, PartialEq, Eq, Structural)]
pub struct StreamParameters {
    pub direction: Direction,
    pub channel_count: i32,
    pub format: AudioFormat,
    pub sample_rate: i32,
    pub frames_per_callback: i32,
    pub buffer_capacity_in_frames: i32,
    pub audio_api: AudioApi,
    pub sharing_mode: SharingMode,
    pub performance_mode: PerformanceMode,
    /// `NoSession`, or the session the stream belongs to; never `Allocate`.
    pub session_id: SessionId,
    pub device_id: i32,
}

/// The parameters that the platform codes in `raw` stand for, if every code
/// is known. A positive session code is an allocated session and -1 is no
/// session; any other session code stands for nothing.
pub open spec fn spec_decode(raw: RawStreamParameters) -> Option<StreamParameters> {
    match (
        Direction::spec_from_raw(raw.direction),
        AudioFormat::spec_from_raw(raw.format),
        AudioApi::spec_from_raw(raw.audio_api),
        SharingMode::spec_from_raw(raw.sharing_mode),
        PerformanceMode::spec_from_raw(raw.performance_mode),
    ) {
        (Some(direction), Some(format), Some(audio_api), Some(sharing_mode), Some(performance_mode)) => {
            if raw.session_id > 0 || raw.session_id == -1 {
                Some(
                    StreamParameters {
                        direction,
                        channel_count: raw.channel_count,
                        format,
                        sample_rate: raw.sample_rate,
                        frames_per_callback: raw.frames_per_callback,
                        buffer_capacity_in_frames: raw.buffer_capacity_in_frames,
                        audio_api,
                        sharing_mode,
                        performance_mode,
                        session_id: if raw.session_id > 0 {
                            SessionId::Id(raw.session_id)
                        } else {
                            SessionId::NoSession
                        },
                        device_id: raw.device_id,
                    },
                )
            } else {
                None
            }
        },
        _ => None,
    }
}

/// A stream with parameters `p` can serve `request` through a stream typed by
/// direction `D`: it has that direction, and an allocation request got a
/// session. Every other parameter, channel count and format included, is the
/// platform's choice and is reported as it stands.
pub open spec fn serves<D: IsDirection>(request: AudioStreamConfig, p: StreamParameters) -> bool {
    &&& p.direction == D::spec_direction()
    &&& (request.session_id == SessionId::Allocate ==> p.session_id is Id)
}

/// The parameters that `raw` stands for, if they serve `request` through a
/// stream typed by `D`.
pub open spec fn spec_accept<D: IsDirection>(
    request: AudioStreamConfig,
    raw: RawStreamParameters,
) -> Option<StreamParameters> {
    match spec_decode(raw) {
        Some(p) => if serves::<D>(request, p) {
            Some(p)
        } else {
            None
        },
        None => None,
    }
}

/// What negotiation yields for a request and the platform's answer to it.
pub open spec fn spec_negotiate<D: IsDirection, H>(
    request: AudioStreamConfig,
    outcome: Result<(H, RawStreamParameters), i32>,
) -> Result<(H, StreamParameters), Error> {
    match outcome {
        Err(status) => Err(Error::PlatformFailure(status)),
        Ok((h, raw)) => match spec_accept::<D>(request, raw) {
            Some(p) => Ok((h, p)),
            None => Err(Error::InvalidConfiguration),
        },
    }
}

/// Turns the platform's answer to an open request into a result: a refusal becomes
/// `PlatformFailure` with its status; an accepted request becomes the stream
/// with the parameters the platform reports, substitutions included, unless
/// those parameters hold an unknown code, another direction, or no session
/// for an allocation request: that becomes `InvalidConfiguration`, and its
/// handle is dropped, which releases it.
pub fn negotiate<D: IsDirection, H>(
    request: &AudioStreamConfig,
    outcome: Result<(H, RawStreamParameters), i32>,
) -> (r: Result<(H, StreamParameters), Error>)
    ensures
        r == spec_negotiate::<D, H>(*request, outcome),
{
    match outcome {
        Err(status) => Err(Error::PlatformFailure(status)),
        Ok((h, raw)) => match decode::<D>(request, &raw) {
            Some(p) => Ok((h, p)),
            None => Err(Error::InvalidConfiguration),
        },
    }
}

/// The parameters that `raw` stands for, if they serve the request.
fn decode<D: IsDirection>(
    request: &AudioStreamConfig,
    raw: &RawStreamParameters,
) -> (r: Option<StreamParameters>)
    ensures
        r == spec_accept::<D>(*request, *raw),
{
    let direction = match Direction::from_raw(raw.direction) {
        Some(d) => d,
        None => return None,
    };
    let format = match AudioFormat::from_raw(raw.format) {
        Some(f) => f,
        None => return None,
    };
    let audio_api = match AudioApi::from_raw(raw.audio_api) {
        Some(a) => a,
        None => return None,
    };
    let sharing_mode = match SharingMode::from_raw(raw.sharing_mode) {
        Some(m) => m,
        None => return None,
    };
    let performance_mode = match PerformanceMode::from_raw(raw.performance_mode) {
        Some(m) => m,
        None => return None,
    };
    let session_id = if raw.session_id > 0 {
        SessionId::Id(raw.session_id)
    } else if raw.session_id == -1 {
        SessionId::NoSession
    } else {
        return None;
    };
    if direction != D::direction() {
        return None;
    }
    if request.session_id == SessionId::Allocate && session_id == SessionId::NoSession {
        return None;
    }
    Some(
        StreamParameters {
            direction,
            channel_count: raw.channel_count,
            format,
            sample_rate: raw.sample_rate,
            frames_per_callback: raw.frames_per_callback,
            buffer_capacity_in_frames: raw.buffer_capacity_in_frames,
            audio_api,
            sharing_mode,
            performance_mode,
            session_id,
            device_id: raw.device_id,
        },
    )
}

/// An opened stream for blocking reads or writes, typed by its direction `D`
/// and frame type `F`. It owns the platform handle `H`; dropping the handle
/// releases the native stream.
pub struct AudioStreamSync<D, F, H> {
    handle: H,
    params: StreamParameters,
    _phantom: PhantomData<(D, F)>,
}

impl<D, F, H> View for AudioStreamSync<D, F, H> {
    type V = StreamParameters;

    closed spec fn view(&self) -> StreamParameters {
        self.params
    }
}

impl<D, F, H> AudioStreamSync<D, F, H> {
    pub closed spec fn spec_handle(&self) -> H {
        self.handle
    }

    /// Wraps a negotiated stream.
    pub fn wrap(handle: H, params: StreamParameters) -> (r: Self)
        ensures
            r@ == params,
            r.spec_handle() == handle,
    {
        AudioStreamSync { handle, params, _phantom: PhantomData }
    }

    /// The negotiated parameters.
    pub fn parameters(&self) -> (r: StreamParameters)
        ensures
            r == self@,
    {
        self.params
    }

    pub fn handle(&self) -> (r: &H)
        ensures
            *r == self.spec_handle(),
    {
        &self.handle
    }

    pub fn handle_mut(&mut self) -> (r: &mut H)
        ensures
            *r == old(self).spec_handle(),
            final(self).spec_handle() == *final(r),
            final(self)@ == old(self)@,
    {
        &mut self.handle
    }
}

/// An opened stream driven by a data callback `F` that the platform invokes
/// from its own threads. The stream is the sole owner of the callback: it
/// stays alive as long as the stream, and once the platform has confirmed a
/// close, the stream no longer hands it out for invocation.
pub struct AudioStreamAsync<D, F, H> {
    // Declared before `callback` so that the native stream is released first.
    handle: H,
    callback: F,
    params: StreamParameters,
    closed: bool,
    _phantom: PhantomData<D>,
}

impl<D, F, H> View for AudioStreamAsync<D, F, H> {
    type V = StreamParameters;

    closed spec fn view(&self) -> StreamParameters {
        self.params
    }
}

impl<D, F, H> AudioStreamAsync<D, F, H> {
    pub closed spec fn spec_handle(&self) -> H {
        self.handle
    }

    pub closed spec fn spec_callback(&self) -> F {
        self.callback
    }

    pub closed spec fn spec_closed(&self) -> bool {
        self.closed
    }

    /// Wraps a negotiated stream together with the callback it serves.
    pub fn wrap(handle: H, callback: F, params: StreamParameters) -> (r: Self)
        ensures
            r@ == params,
            r.spec_handle() == handle,
            r.spec_callback() == callback,
            !r.spec_closed(),
    {
        AudioStreamAsync { handle, callback, params, closed: false, _phantom: PhantomData }
    }

    /// The negotiated parameters.
    pub fn parameters(&self) -> (r: StreamParameters)
        ensures
            r == self@,
    {
        self.params
    }

    pub fn handle(&self) -> (r: &H)
        ensures
            *r == self.spec_handle(),
    {
        &self.handle
    }

    pub fn handle_mut(&mut self) -> (r: &mut H)
        ensures
            *r == old(self).spec_handle(),
            final(self).spec_handle() == *final(r),
            final(self).spec_callback() == old(self).spec_callback(),
            final(self).spec_closed() == old(self).spec_closed(),
            final(self)@ == old(self)@,
    {
        &mut self.handle
    }

    /// Whether the platform has confirmed that the stream is closed.
    pub fn is_closed(&self) -> (r: bool)
        ensures
            r == self.spec_closed(),
    {
        self.closed
    }

    /// Records the status of the platform's close call. Only a confirmed
    /// close (status zero) ends callback invocation; a failed one leaves the
    /// stream as it was.
    pub fn close(&mut self, close_status: i32) -> (r: Result<(), Error>)
        ensures
            r == spec_status(close_status),
            final(self).spec_closed() == (old(self).spec_closed() || close_status == 0),
            final(self).spec_handle() == old(self).spec_handle(),
            final(self).spec_callback() == old(self).spec_callback(),
            final(self)@ == old(self)@,
    {
        let r = crate::definitions::wrap_status(close_status);
        if close_status == 0 {
            self.closed = true;
        }
        r
    }

    /// The callback, for one invocation by the platform: there is none once
    /// the stream is closed.
    pub fn callback_mut(&mut self) -> (r: Option<&mut F>)
        ensures
            r is Some <==> !old(self).spec_closed(),
            match r {
                Some(c) => {
                    &&& *c == old(self).spec_callback()
                    &&& final(self).spec_callback() == *final(c)
                    &&& final(self).spec_handle() == old(self).spec_handle()
                    &&& final(self).spec_closed() == old(self).spec_closed()
                    &&& final(self)@ == old(self)@
                },
                None => *final(self) == *old(self),
            },
    {
        if self.closed {
            None
        } else {
            Some(&mut self.callback)
        }
    }
}

} // verus!
