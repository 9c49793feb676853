//! Subscribers: inbound media sinks, their listeners, the requests they issue,
//! and the dispatch of their events.

use vstd::prelude::*;
use vstd::std_specs::convert::FromSpecImpl;
use once_cell::sync::OnceCell;
use crate::codes;
use crate::engine::{EngineCall, Rejected};
use crate::enums::{IntoResult, OtcBool, OtcError, OtcResult};
use crate::handle::NativeHandle;
use crate::instances::{Instances, Managed};
use crate::listener::{Dispatch, ListenerId};
use crate::publisher::{frame_release_calls, owned_frame};
use crate::session::{option_to_calls, owned_stream};
use crate::stream::{stream_release_calls, RawStream, Stream};
use crate::video_frame::{RawVideoFrame, VideoFrame};

verus! {

/// Error kinds of a subscriber, delivered through its error listener.
#[derive(Clone, Copy, Debug, PartialEq, Eq)]
pub enum SubscriberError {
    /// Internal error.
    Internal,
    /// Tried to subscribe to a disconnected session.
    SessionDisconnected,
    /// The stream is missing, as when it was removed while the subscriber was created.
    ServerCannotFindStream,
    /// The session has exceeded its limit of simultaneous streams.
    StreamLimitExceeded,
    /// Timed out attempting to subscribe.
    TimedOut,
    /// WebRTC error.
    WebRtcError,
    /// A code outside the known set.
    __Unknown,
}

/// The error kind that a code of the engine stands for.
pub open spec fn subscriber_error_of(code: u32) -> SubscriberError {
    if code == codes::OTC_SUBSCRIBER_INTERNAL_ERROR {
        SubscriberError::Internal
    } else if code == codes::OTC_SUBSCRIBER_SESSION_DISCONNECTED {
        SubscriberError::SessionDisconnected
    } else if code == codes::OTC_SUBSCRIBER_SERVER_CANNOT_FIND_STREAM {
        SubscriberError::ServerCannotFindStream
    } else if code == codes::OTC_SUBSCRIBER_STREAM_LIMIT_EXCEEDED {
        SubscriberError::StreamLimitExceeded
    } else if code == codes::OTC_SUBSCRIBER_TIMED_OUT {
        SubscriberError::TimedOut
    } else if code == codes::OTC_SUBSCRIBER_WEBRTC_ERROR {
        SubscriberError::WebRtcError
    } else {
        SubscriberError::__Unknown
    }
}

impl From<u32> for SubscriberError {
    fn from(code: u32) -> (kind: SubscriberError) {
        if code == codes::OTC_SUBSCRIBER_INTERNAL_ERROR {
            SubscriberError::Internal
        } else if code == codes::OTC_SUBSCRIBER_SESSION_DISCONNECTED {
            SubscriberError::SessionDisconnected
        } else if code == codes::OTC_SUBSCRIBER_SERVER_CANNOT_FIND_STREAM {
            SubscriberError::ServerCannotFindStream
        } else if code == codes::OTC_SUBSCRIBER_STREAM_LIMIT_EXCEEDED {
            SubscriberError::StreamLimitExceeded
        } else if code == codes::OTC_SUBSCRIBER_TIMED_OUT {
            SubscriberError::TimedOut
        } else if code == codes::OTC_SUBSCRIBER_WEBRTC_ERROR {
            SubscriberError::WebRtcError
        } else {
            SubscriberError::__Unknown
        }
    }
}

impl FromSpecImpl<u32> for SubscriberError {
    open spec fn obeys_from_spec() -> bool {
        true
    }

    open spec fn from_spec(code: u32) -> SubscriberError {
        subscriber_error_of(code)
    }
}
/// Reasons for a video to be started, stopped or resumed.
#[derive(Clone, Copy, Debug, PartialEq, Eq)]
pub enum VideoReason {
    /// The publisher started or stopped publishing video.
    Publish,
    /// The subscriber started or stopped subscribing to video.
    Subscribe,
    /// The quality of the stream changed.
    Quality,
    /// The codec is not supported.
    CodecNotSupported,
    /// A code outside the known set.
    __Unknown,
}

/// The reason that a code of the engine stands for.
pub open spec fn video_reason_of(code: u32) -> VideoReason {
    if code == codes::OTC_VIDEO_REASON_PUBLISH_VIDEO {
        VideoReason::Publish
    } else if code == codes::OTC_VIDEO_REASON_SUBSCRIBE_TO_VIDEO {
        VideoReason::Subscribe
    } else if code == codes::OTC_VIDEO_REASON_QUALITY {
        VideoReason::Quality
    } else if code == codes::OTC_VIDEO_REASON_CODEC_NOT_SUPPORTED {
        VideoReason::CodecNotSupported
    } else {
        VideoReason::__Unknown
    }
}

impl From<u32> for VideoReason {
    fn from(code: u32) -> (kind: VideoReason) {
        if code == codes::OTC_VIDEO_REASON_PUBLISH_VIDEO {
            VideoReason::Publish
        } else if code == codes::OTC_VIDEO_REASON_SUBSCRIBE_TO_VIDEO {
            VideoReason::Subscribe
        } else if code == codes::OTC_VIDEO_REASON_QUALITY {
            VideoReason::Quality
        } else if code == codes::OTC_VIDEO_REASON_CODEC_NOT_SUPPORTED {
            VideoReason::CodecNotSupported
        } else {
            VideoReason::__Unknown
        }
    }
}

impl FromSpecImpl<u32> for VideoReason {
    open spec fn obeys_from_spec() -> bool {
        true
    }

    open spec fn from_spec(code: u32) -> VideoReason {
        video_reason_of(code)
    }
}

/// The listeners of a subscriber: at most one for each kind of event. An event
/// whose kind has no listener is ignored.
#[derive(Clone, Copy, Debug, PartialEq, Eq)]
pub struct SubscriberCallbacks {
    /// The listener for the event: the subscriber connected to its stream.
    pub on_connected: Option<ListenerId>,
    /// The listener for the event: the subscriber lost its stream.
    pub on_disconnected: Option<ListenerId>,
    /// The listener for the event: the subscriber reconnected to its stream.
    pub on_reconnected: Option<ListenerId>,
    /// The listener for the event: a frame of the subscribed video is ready to render.
    pub on_render_frame: Option<ListenerId>,
    /// The listener for the event: the video was disabled.
    pub on_video_disabled: Option<ListenerId>,
    /// The listener for the event: the video was enabled.
    pub on_video_enabled: Option<ListenerId>,
    /// The listener for the event: the audio was disabled.
    pub on_audio_disabled: Option<ListenerId>,
    /// The listener for the event: the audio was enabled.
    pub on_audio_enabled: Option<ListenerId>,
    /// The listener for the event: video data arrived for the first time.
    pub on_video_data_received: Option<ListenerId>,
    /// The listener for the event: the video may soon be disabled for bad quality.
    pub on_video_disable_warning: Option<ListenerId>,
    /// The listener for the event: the quality recovered and the warning is lifted.
    pub on_video_disable_warning_lifted: Option<ListenerId>,
    /// The listener for the event: the audio level changed.
    pub on_audio_level_updated: Option<ListenerId>,
    /// The listener for the event: the subscriber failed.
    pub on_error: Option<ListenerId>,
}

/// Collects the listeners of a subscriber, one setter for each kind of event.
/// Setting a kind twice keeps the later listener.
#[derive(Clone, Copy, Debug, PartialEq, Eq)]
pub struct SubscriberCallbacksBuilder {
    on_connected: Option<ListenerId>,
    on_disconnected: Option<ListenerId>,
    on_reconnected: Option<ListenerId>,
    on_render_frame: Option<ListenerId>,
    on_video_disabled: Option<ListenerId>,
    on_video_enabled: Option<ListenerId>,
    on_audio_disabled: Option<ListenerId>,
    on_audio_enabled: Option<ListenerId>,
    on_video_data_received: Option<ListenerId>,
    on_video_disable_warning: Option<ListenerId>,
    on_video_disable_warning_lifted: Option<ListenerId>,
    on_audio_level_updated: Option<ListenerId>,
    on_error: Option<ListenerId>,
}

impl SubscriberCallbacksBuilder {
    /// The listeners collected so far.
    pub closed spec fn listeners(self) -> SubscriberCallbacks {
        SubscriberCallbacks {
            on_connected: self.on_connected,
            on_disconnected: self.on_disconnected,
            on_reconnected: self.on_reconnected,
            on_render_frame: self.on_render_frame,
            on_video_disabled: self.on_video_disabled,
            on_video_enabled: self.on_video_enabled,
            on_audio_disabled: self.on_audio_disabled,
            on_audio_enabled: self.on_audio_enabled,
            on_video_data_received: self.on_video_data_received,
            on_video_disable_warning: self.on_video_disable_warning,
            on_video_disable_warning_lifted: self.on_video_disable_warning_lifted,
            on_audio_level_updated: self.on_audio_level_updated,
            on_error: self.on_error,
        }
    }

    /// Registers the listener for the event: the subscriber connected to its stream.
    pub fn on_connected(self, listener: ListenerId) -> (b: Self)
        ensures
            b.listeners() == (SubscriberCallbacks { on_connected: Some(listener), ..self.listeners() }),
    {
        Self { on_connected: Some(listener), ..self }
    }

    /// Registers the listener for the event: the subscriber lost its stream.
    pub fn on_disconnected(self, listener: ListenerId) -> (b: Self)
        ensures
            b.listeners() == (SubscriberCallbacks { on_disconnected: Some(listener), ..self.listeners() }),
    {
        Self { on_disconnected: Some(listener), ..self }
    }

    /// Registers the listener for the event: the subscriber reconnected to its stream.
    pub fn on_reconnected(self, listener: ListenerId) -> (b: Self)
        ensures
            b.listeners() == (SubscriberCallbacks { on_reconnected: Some(listener), ..self.listeners() }),
    {
        Self { on_reconnected: Some(listener), ..self }
    }

    /// Registers the listener for the event: a frame of the subscribed video is ready to render.
    pub fn on_render_frame(self, listener: ListenerId) -> (b: Self)
        ensures
            b.listeners() == (SubscriberCallbacks { on_render_frame: Some(listener), ..self.listeners() }),
    {
        Self { on_render_frame: Some(listener), ..self }
    }

    /// Registers the listener for the event: the video was disabled.
    pub fn on_video_disabled(self, listener: ListenerId) -> (b: Self)
        ensures
            b.listeners() == (SubscriberCallbacks { on_video_disabled: Some(listener), ..self.listeners() }),
    {
        Self { on_video_disabled: Some(listener), ..self }
    }

    /// Registers the listener for the event: the video was enabled.
    pub fn on_video_enabled(self, listener: ListenerId) -> (b: Self)
        ensures
            b.listeners() == (SubscriberCallbacks { on_video_enabled: Some(listener), ..self.listeners() }),
    {
        Self { on_video_enabled: Some(listener), ..self }
    }

    /// Registers the listener for the event: the audio was disabled.
    pub fn on_audio_disabled(self, listener: ListenerId) -> (b: Self)
        ensures
            b.listeners() == (SubscriberCallbacks { on_audio_disabled: Some(listener), ..self.listeners() }),
    {
        Self { on_audio_disabled: Some(listener), ..self }
    }

    /// Registers the listener for the event: the audio was enabled.
    pub fn on_audio_enabled(self, listener: ListenerId) -> (b: Self)
        ensures
            b.listeners() == (SubscriberCallbacks { on_audio_enabled: Some(listener), ..self.listeners() }),
    {
        Self { on_audio_enabled: Some(listener), ..self }
    }

    /// Registers the listener for the event: video data arrived for the first time.
    pub fn on_video_data_received(self, listener: ListenerId) -> (b: Self)
        ensures
            b.listeners() == (SubscriberCallbacks { on_video_data_received: Some(listener), ..self.listeners() }),
    {
        Self { on_video_data_received: Some(listener), ..self }
    }

    /// Registers the listener for the event: the video may soon be disabled for bad quality.
    pub fn on_video_disable_warning(self, listener: ListenerId) -> (b: Self)
        ensures
            b.listeners() == (SubscriberCallbacks { on_video_disable_warning: Some(listener), ..self.listeners() }),
    {
        Self { on_video_disable_warning: Some(listener), ..self }
    }

    /// Registers the listener for the event: the quality recovered and the warning is lifted.
    pub fn on_video_disable_warning_lifted(self, listener: ListenerId) -> (b: Self)
        ensures
            b.listeners() == (SubscriberCallbacks { on_video_disable_warning_lifted: Some(listener), ..self.listeners() }),
    {
        Self { on_video_disable_warning_lifted: Some(listener), ..self }
    }

    /// Registers the listener for the event: the audio level changed.
    pub fn on_audio_level_updated(self, listener: ListenerId) -> (b: Self)
        ensures
            b.listeners() == (SubscriberCallbacks { on_audio_level_updated: Some(listener), ..self.listeners() }),
    {
        Self { on_audio_level_updated: Some(listener), ..self }
    }

    /// Registers the listener for the event: the subscriber failed.
    pub fn on_error(self, listener: ListenerId) -> (b: Self)
        ensures
            b.listeners() == (SubscriberCallbacks { on_error: Some(listener), ..self.listeners() }),
    {
        Self { on_error: Some(listener), ..self }
    }

    /// The finished listener set.
    pub fn build(self) -> (callbacks: SubscriberCallbacks)
        ensures
            callbacks == self.listeners(),
    {
        SubscriberCallbacks {
            on_connected: self.on_connected,
            on_disconnected: self.on_disconnected,
            on_reconnected: self.on_reconnected,
            on_render_frame: self.on_render_frame,
            on_video_disabled: self.on_video_disabled,
            on_video_enabled: self.on_video_enabled,
            on_audio_disabled: self.on_audio_disabled,
            on_audio_enabled: self.on_audio_enabled,
            on_video_data_received: self.on_video_data_received,
            on_video_disable_warning: self.on_video_disable_warning,
            on_video_disable_warning_lifted: self.on_video_disable_warning_lifted,
            on_audio_level_updated: self.on_audio_level_updated,
            on_error: self.on_error,
        }
    }
}

impl SubscriberCallbacks {
    /// A listener set without any listener.
    pub open spec fn none() -> SubscriberCallbacks {
        SubscriberCallbacks {
            on_connected: None,
            on_disconnected: None,
            on_reconnected: None,
            on_render_frame: None,
            on_video_disabled: None,
            on_video_enabled: None,
            on_audio_disabled: None,
            on_audio_enabled: None,
            on_video_data_received: None,
            on_video_disable_warning: None,
            on_video_disable_warning_lifted: None,
            on_audio_level_updated: None,
            on_error: None,
        }
    }

    /// Starts a listener set with no listener in it.
    pub fn builder() -> (b: SubscriberCallbacksBuilder)
        ensures
            b.listeners() == SubscriberCallbacks::none(),
    {
        SubscriberCallbacksBuilder {
            on_connected: None,
            on_disconnected: None,
            on_reconnected: None,
            on_render_frame: None,
            on_video_disabled: None,
            on_video_enabled: None,
            on_audio_disabled: None,
            on_audio_enabled: None,
            on_video_data_received: None,
            on_video_disable_warning: None,
            on_video_disable_warning_lifted: None,
            on_audio_level_updated: None,
            on_error: None,
        }
    }
}
#[verifier::external_type_specification]
#[verifier::external_body]
#[verifier::reject_recursive_types(T)]
pub struct ExOnceCell<T>(OnceCell<T>);

/// What a set-once cell for a stream holds: nothing, or the one stream that it
/// was set to.
pub uninterp spec fn bound_stream(cell: OnceCell<Stream>) -> Option<Stream>;

/// `OnceCell::new`: a cell that holds nothing.
#[verifier::external_body]
fn cell_new() -> (cell: OnceCell<Stream>)
    ensures
        bound_stream(cell) is None,
{
    OnceCell::new()
}

/// `OnceCell::get`: the stream that the cell holds, if it was set.
#[verifier::external_body]
fn cell_get(cell: &OnceCell<Stream>) -> (stream: Option<&Stream>)
    ensures
        stream == (match bound_stream(*cell) {
            Some(s) => Some(&s),
            None => None::<&Stream>,
        }),
{
    cell.get()
}

/// `OnceCell::set`: fills an empty cell and returns `Ok`; leaves a full cell as
/// it is and hands the rejected stream back in `Err`.
#[verifier::external_body]
fn cell_set(cell: &mut OnceCell<Stream>, stream: Stream) -> (r: Result<(), Stream>)
    ensures
        r is Ok <==> bound_stream(*old(cell)) is None,
        r matches Err(back) ==> back == stream,
        bound_stream(*final(cell)) == (if bound_stream(*old(cell)) is None {
            Some(stream)
        } else {
            bound_stream(*old(cell))
        }),
{
    cell.set(stream)
}

/// An event of a subscriber as the engine's callback delivered it.
#[derive(Debug)]
pub enum RawSubscriberEvent {
    Connected(RawStream),
    Disconnected,
    Reconnected,
    RenderFrame(RawVideoFrame),
    VideoDisabled(u32),
    VideoEnabled(u32),
    AudioDisabled,
    AudioEnabled,
    VideoDataReceived,
    VideoDisableWarning,
    VideoDisableWarningLifted,
    /// The audio level, as the bits of a 32-bit float.
    AudioLevelUpdated(u32),
    Error(Option<String>, u32),
}

/// An event of a subscriber in safe values, which the listener owns.
#[derive(Debug)]
pub enum SubscriberEvent {
    Connected(Stream),
    Disconnected,
    Reconnected,
    RenderFrame(VideoFrame),
    VideoDisabled(VideoReason),
    VideoEnabled(VideoReason),
    AudioDisabled,
    AudioEnabled,
    VideoDataReceived,
    VideoDisableWarning,
    VideoDisableWarningLifted,
    /// The audio level, as the bits of a 32-bit float.
    AudioLevelUpdated(u32),
    Error(String, SubscriberError),
}

impl RawSubscriberEvent {
    /// Whether the event can be handed to a listener: every pointer that it
    /// came with was there.
    pub open spec fn deliverable(self) -> bool {
        match self {
            RawSubscriberEvent::Connected(s) => s.addr != 0,
            RawSubscriberEvent::RenderFrame(f) => f.addr != 0,
            RawSubscriberEvent::Error(message, _) => message is Some,
            _ => true,
        }
    }

    /// The requests that give back the native copies that the event came with.
    pub open spec fn discards(self) -> Seq<EngineCall> {
        match self {
            RawSubscriberEvent::Connected(s) => stream_release_calls(s.connection.addr, s.addr),
            RawSubscriberEvent::RenderFrame(f) => frame_release_calls(f.addr),
            _ => Seq::<EngineCall>::empty(),
        }
    }

    /// The safe event says what the raw event said.
    pub open spec fn converts_to(self, event: SubscriberEvent) -> bool {
        match (self, event) {
            (RawSubscriberEvent::Connected(raw), SubscriberEvent::Connected(s)) => s.mirrors(raw),
            (RawSubscriberEvent::Disconnected, SubscriberEvent::Disconnected) => true,
            (RawSubscriberEvent::Reconnected, SubscriberEvent::Reconnected) => true,
            (RawSubscriberEvent::RenderFrame(raw), SubscriberEvent::RenderFrame(f)) => f.mirrors(raw),
            (RawSubscriberEvent::VideoDisabled(code), SubscriberEvent::VideoDisabled(reason)) => reason
                == video_reason_of(code),
            (RawSubscriberEvent::VideoEnabled(code), SubscriberEvent::VideoEnabled(reason)) => reason
                == video_reason_of(code),
            (RawSubscriberEvent::AudioDisabled, SubscriberEvent::AudioDisabled) => true,
            (RawSubscriberEvent::AudioEnabled, SubscriberEvent::AudioEnabled) => true,
            (RawSubscriberEvent::VideoDataReceived, SubscriberEvent::VideoDataReceived) => true,
            (RawSubscriberEvent::VideoDisableWarning, SubscriberEvent::VideoDisableWarning) => true,
            (
                RawSubscriberEvent::VideoDisableWarningLifted,
                SubscriberEvent::VideoDisableWarningLifted,
            ) => true,
            (RawSubscriberEvent::AudioLevelUpdated(raw), SubscriberEvent::AudioLevelUpdated(level)) =>
                raw == level,
            (RawSubscriberEvent::Error(raw_message, code), SubscriberEvent::Error(message, kind)) =>
                raw_message == Some(message) && kind == subscriber_error_of(code),
            _ => false,
        }
    }

    /// Converts the event for a listener. An event that came with a null pointer
    /// cannot be delivered: it yields the requests that give back whatever native
    /// copies it did come with.
    pub fn into_event(self) -> (r: Result<SubscriberEvent, Vec<EngineCall>>)
        ensures
            self.deliverable() ==> r is Ok && self.converts_to(r->Ok_0),
            !self.deliverable() ==> r is Err && r->Err_0@ == self.discards(),
    {
        match self {
            RawSubscriberEvent::Connected(raw) => match owned_stream(raw) {
                Ok(s) => Ok(SubscriberEvent::Connected(s)),
                Err(calls) => Err(calls),
            },
            RawSubscriberEvent::Disconnected => Ok(SubscriberEvent::Disconnected),
            RawSubscriberEvent::Reconnected => Ok(SubscriberEvent::Reconnected),
            RawSubscriberEvent::RenderFrame(raw) => match owned_frame(raw) {
                Some(f) => Ok(SubscriberEvent::RenderFrame(f)),
                None => Err(Vec::new()),
            },
            RawSubscriberEvent::VideoDisabled(code) => Ok(
                SubscriberEvent::VideoDisabled(VideoReason::from(code)),
            ),
            RawSubscriberEvent::VideoEnabled(code) => Ok(
                SubscriberEvent::VideoEnabled(VideoReason::from(code)),
            ),
            RawSubscriberEvent::AudioDisabled => Ok(SubscriberEvent::AudioDisabled),
            RawSubscriberEvent::AudioEnabled => Ok(SubscriberEvent::AudioEnabled),
            RawSubscriberEvent::VideoDataReceived => Ok(SubscriberEvent::VideoDataReceived),
            RawSubscriberEvent::VideoDisableWarning => Ok(SubscriberEvent::VideoDisableWarning),
            RawSubscriberEvent::VideoDisableWarningLifted => Ok(
                SubscriberEvent::VideoDisableWarningLifted,
            ),
            RawSubscriberEvent::AudioLevelUpdated(level) => Ok(
                SubscriberEvent::AudioLevelUpdated(level),
            ),
            RawSubscriberEvent::Error(message, code) => match message {
                Some(message) => Ok(SubscriberEvent::Error(message, SubscriberError::from(code))),
                None => Err(Vec::new()),
            },
        }
    }

    /// Gives back the native copies of a raw event that finds no object.
    pub fn discard(self) -> (calls: Vec<EngineCall>)
        ensures
            calls@ == self.discards(),
    {
        match self {
            RawSubscriberEvent::Connected(raw) => {
                let mut s = Stream::from_raw(raw);
                s.release()
            },
            RawSubscriberEvent::RenderFrame(raw) => {
                let mut f = VideoFrame::from_raw(raw);
                option_to_calls(f.release())
            },
            _ => Vec::new(),
        }
    }
}

impl SubscriberEvent {
    /// The requests that give back the native copies that the event owns.
    pub open spec fn discards(self) -> Seq<EngineCall> {
        match self {
            SubscriberEvent::Connected(s) => stream_release_calls(
                s.connection().native().key(),
                s.native().key(),
            ),
            SubscriberEvent::RenderFrame(f) => frame_release_calls(f.native().key()),
            _ => Seq::<EngineCall>::empty(),
        }
    }

    /// Gives back the native copies of an event that nobody will receive.
    pub fn discard(self) -> (calls: Vec<EngineCall>)
        ensures
            calls@ == self.discards(),
    {
        match self {
            SubscriberEvent::Connected(s) => {
                let mut s = s;
                s.release()
            },
            SubscriberEvent::RenderFrame(f) => {
                let mut f = f;
                option_to_calls(f.release())
            },
            _ => Vec::new(),
        }
    }
}

impl SubscriberCallbacks {
    /// The listener that an event goes to, if its kind has one.
    pub open spec fn listener_of(self, event: SubscriberEvent) -> Option<ListenerId> {
        match event {
            SubscriberEvent::Connected(_) => self.on_connected,
            SubscriberEvent::Disconnected => self.on_disconnected,
            SubscriberEvent::Reconnected => self.on_reconnected,
            SubscriberEvent::RenderFrame(_) => self.on_render_frame,
            SubscriberEvent::VideoDisabled(_) => self.on_video_disabled,
            SubscriberEvent::VideoEnabled(_) => self.on_video_enabled,
            SubscriberEvent::AudioDisabled => self.on_audio_disabled,
            SubscriberEvent::AudioEnabled => self.on_audio_enabled,
            SubscriberEvent::VideoDataReceived => self.on_video_data_received,
            SubscriberEvent::VideoDisableWarning => self.on_video_disable_warning,
            SubscriberEvent::VideoDisableWarningLifted =>
                self.on_video_disable_warning_lifted,
            SubscriberEvent::AudioLevelUpdated(_) => self.on_audio_level_updated,
            SubscriberEvent::Error(_, _) => self.on_error,
        }
    }

    fn pick(&self, event: &SubscriberEvent) -> (listener: Option<ListenerId>)
        ensures
            listener == self.listener_of(*event),
    {
        match event {
            SubscriberEvent::Connected(_) => self.on_connected,
            SubscriberEvent::Disconnected => self.on_disconnected,
            SubscriberEvent::Reconnected => self.on_reconnected,
            SubscriberEvent::RenderFrame(_) => self.on_render_frame,
            SubscriberEvent::VideoDisabled(_) => self.on_video_disabled,
            SubscriberEvent::VideoEnabled(_) => self.on_video_enabled,
            SubscriberEvent::AudioDisabled => self.on_audio_disabled,
            SubscriberEvent::AudioEnabled => self.on_audio_enabled,
            SubscriberEvent::VideoDataReceived => self.on_video_data_received,
            SubscriberEvent::VideoDisableWarning => self.on_video_disable_warning,
            SubscriberEvent::VideoDisableWarningLifted => self.on_video_disable_warning_lifted,
            SubscriberEvent::AudioLevelUpdated(_) => self.on_audio_level_updated,
            SubscriberEvent::Error(_, _) => self.on_error,
        }
    }

    /// What becomes of an event: it reaches the listener for its kind, or,
    /// without such a listener, it is ignored and the native copies that it owns
    /// are given back.
    pub open spec fn outcome(
        self,
        target: usize,
        event: SubscriberEvent,
        d: Dispatch<SubscriberEvent>,
    ) -> bool {
        match self.listener_of(event) {
            Some(listener) => d.delivers(listener, target, event),
            None => d.drops(event.discards()),
        }
    }

    /// Hands an event of the subscriber with this identity to the listener for
    /// its kind.
    pub fn deliver(&self, subscriber: usize, event: SubscriberEvent) -> (d: Dispatch<
        SubscriberEvent,
    >)
        ensures
            self.outcome(subscriber, event, d),
    {
        match self.pick(&event) {
            Some(listener) => Dispatch::deliver(listener, subscriber, event),
            None => Dispatch::dropped(event.discard()),
        }
    }
}

/// An inbound media sink. It is created without a native object; binding it to
/// a stream, which can be done once, is what has the engine create one.
pub struct Subscriber {
    handle: NativeHandle,
    callbacks: SubscriberCallbacks,
    stream: OnceCell<Stream>,
    session: usize,
}

/// The requests that give a subscriber back: if it is attached to a session, it
/// is unsubscribed from that session first; the delete request comes last.
pub open spec fn subscriber_retire_calls(key: usize, attached: usize) -> Seq<EngineCall> {
    if attached != 0 {
        seq![
            (EngineCall::SessionUnsubscribe { session: attached, subscriber: key }),
            (EngineCall::SubscriberDelete { subscriber: key }),
        ]
    } else {
        seq![(EngineCall::SubscriberDelete { subscriber: key })]
    }
}

impl Managed for Subscriber {
    closed spec fn native(&self) -> NativeHandle {
        self.handle
    }

    closed spec fn attached(&self) -> usize {
        self.session
    }

    open spec fn retire_calls(key: usize, attached: usize) -> Seq<EngineCall> {
        subscriber_retire_calls(key, attached)
    }

    closed spec fn retired(self) -> Self {
        Subscriber { handle: NativeHandle::null_spec(), session: 0, ..self }
    }

    closed spec fn adopted(self, native: usize) -> Self {
        Subscriber { handle: NativeHandle::wrap_spec(native), ..self }
    }

    fn handle(&self) -> (h: &NativeHandle) {
        &self.handle
    }

    fn adopt(&mut self, native: usize) {
        self.handle = NativeHandle::wrap(native);
    }

    fn retire(&mut self) -> (calls: Vec<EngineCall>) {
        let attached = self.session;
        let addr = self.handle.inner();
        let mut calls: Vec<EngineCall> = Vec::new();
        if addr != 0 {
            if attached != 0 {
                calls.push(EngineCall::SessionUnsubscribe { session: attached, subscriber: addr });
            }
            calls.push(EngineCall::SubscriberDelete { subscriber: addr });
        }
        self.handle = NativeHandle::null();
        self.session = 0;
        calls
    }
}

impl Subscriber {
    /// The listeners of the subscriber.
    pub closed spec fn listeners(self) -> SubscriberCallbacks {
        self.callbacks
    }

    /// The stream that the subscriber is bound to, if it was bound.
    pub closed spec fn bound(self) -> Option<Stream> {
        bound_stream(self.stream)
    }

    /// A subscriber as it is right after creation: without a native object,
    /// bound to no stream, attached to no session.
    pub open spec fn is_fresh(self, callbacks: SubscriberCallbacks) -> bool {
        &&& !self.native().live()
        &&& self.listeners() == callbacks
        &&& self.bound() is None
        &&& self.attached() == 0
    }

    /// Puts a new subscriber into the pool and returns its token. It has no
    /// native object yet, so it is not registered.
    pub fn new(pool: &mut Instances<Subscriber>, callbacks: SubscriberCallbacks) -> (token: usize)
        requires
            old(pool).wf(),
        ensures
            final(pool).wf(),
            token == old(pool).count(),
            final(pool).count() == old(pool).count() + 1,
            final(pool).object(token as int).is_fresh(callbacks),
            final(pool).owners(token as int) == 1,
            bound_when_live(*old(pool)) ==> bound_when_live(*final(pool)),
            final(pool).routes() == old(pool).routes(),
            final(pool).order() == old(pool).order(),
            forall|t: int|
                0 <= t < old(pool).count() ==> final(pool).object(t) == old(pool).object(t)
                    && final(pool).owners(t) == old(pool).owners(t),
    {
        let subscriber = Subscriber {
            handle: NativeHandle::null(),
            callbacks,
            stream: cell_new(),
            session: 0,
        };
        proof {
            pool.lemma_unfold();
            assert(pool.slots.len() == pool.slots@.len());
        }
        pool.add(subscriber)
    }

    /// The identity key of the subscriber; zero before it was bound and after
    /// it was given back.
    pub fn inner(&self) -> (k: usize)
        ensures
            k == self.native().key(),
    {
        self.handle.inner()
    }

    /// The listeners of the subscriber.
    pub fn callbacks(&self) -> (c: SubscriberCallbacks)
        ensures
            c == self.listeners(),
    {
        self.callbacks
    }

    /// The identity of the session that the subscriber is attached to; zero if none.
    pub fn session(&self) -> (s: usize)
        ensures
            s == self.attached(),
    {
        self.session
    }

    /// The stream that the subscriber is bound to, if it was bound.
    pub fn get_stream(&self) -> (stream: Option<&Stream>)
        ensures
            stream == (match self.bound() {
                Some(s) => Some(&s),
                None => None::<&Stream>,
            }),
    {
        cell_get(&self.stream)
    }

    /// Binds the subscriber to a stream and returns the request that has the
    /// engine create the native subscriber for that stream. A subscriber is
    /// bound once: a second attempt fails with `AlreadyInitialized`, leaves the
    /// first stream in place, and gives the rejected stream's copies back. A
    /// token that names no subscriber fails with `NullError` in the same way.
    pub fn set_stream(pool: &mut Instances<Subscriber>, token: usize, stream: Stream) -> (r: Result<
        EngineCall,
        Rejected,
    >)
        requires
            old(pool).wf(),
        ensures
            final(pool).wf(),
            bound_when_live(*old(pool)) ==> bound_when_live(*final(pool)),
            final(pool).count() == old(pool).count(),
            final(pool).routes() == old(pool).routes(),
            final(pool).order() == old(pool).order(),
            forall|t: int|
                0 <= t < old(pool).count() ==> final(pool).owners(t) == old(pool).owners(t)
                    && final(pool).object(t).native() == old(pool).object(t).native()
                    && final(pool).object(t).listeners() == old(pool).object(t).listeners()
                    && final(pool).object(t).attached() == old(pool).object(t).attached(),
            forall|t: int|
                0 <= t < old(pool).count() && t != token ==> final(pool).object(t) == old(
                    pool,
                ).object(t),
            match set_stream_outcome(
                token < old(pool).count(),
                token < old(pool).count() && old(pool).object(token as int).bound() is Some,
            ) {
                Ok(()) => {
                    &&& r == Ok::<EngineCall, Rejected>(
                        (EngineCall::SubscriberNew { stream: stream.native().key() }),
                    )
                    &&& final(pool).object(token as int).bound() == Some(stream)
                },
                Err(error) => {
                    &&& r is Err
                    &&& r->Err_0.error == error
                    &&& r->Err_0.discard@ == stream_release_calls(
                        stream.connection().native().key(),
                        stream.native().key(),
                    )
                    &&& token < old(pool).count() ==> final(pool).object(token as int).bound() == old(
                        pool,
                    ).object(token as int).bound()
                },
            },
    {
        proof {
            pool.lemma_unfold();
        }
        if token >= pool.slots.len() {
            let mut stream = stream;
            return Err(Rejected { error: OtcError::NullError, discard: stream.release() });
        }
        let ghost before = *pool;
        let key = stream.inner();
        let outcome = cell_set(&mut pool.slots[token].object.stream, stream);
        proof {
            pool.lemma_same_handles(before);
            pool.lemma_unfold();
            if bound_when_live(before) {
                assert forall|t: int|
                    0 <= t < pool.count() && (#[trigger] pool.object(t)).native().live() implies pool.object(
                    t,
                ).bound() is Some by {
                    assert(before.object(t).native().live());
                    assert(before.object(t).bound() is Some);
                }
            }
        }
        match outcome {
            Ok(()) => Ok(EngineCall::SubscriberNew { stream: key }),
            Err(back) => {
                let mut back = back;
                Err(
                    Rejected {
                        error: OtcError::AlreadyInitialized("stream"),
                        discard: back.release(),
                    },
                )
            },
        }
    }

    /// Takes in the native subscriber that the engine created for a bound
    /// subscriber, and registers it under that identity. Fails with `NullError`
    /// if no such subscriber exists, if no stream is bound to it, or if the
    /// engine created nothing, and with `AlreadyInitialized` if the subscriber
    /// already has a native object. A failed call changes nothing. Otherwise the
    /// subscriber is registered, whatever the engine's handle is: no other
    /// identity is added or removed, and a stale object that was still
    /// registered under this identity is retired.
    pub fn created(pool: &mut Instances<Subscriber>, token: usize, native: usize) -> (r: OtcResult)
        requires
            old(pool).wf(),
        ensures
            final(pool).wf(),
            bound_when_live(*old(pool)) ==> bound_when_live(*final(pool)),
            final(pool).count() == old(pool).count(),
            r == created_outcome(
                token < old(pool).count(),
                token < old(pool).count() && old(pool).object(token as int).bound() is Some,
                native,
                old(pool).live(token as int),
            ),
            r is Err ==> *final(pool) == *old(pool),
            r is Ok ==> {
                &&& final(pool).registers(*old(pool), native, token)
                &&& final(pool).object(token as int).native().key() == native
                &&& final(pool).object(token as int).bound() == old(pool).object(token as int).bound()
                &&& final(pool).object(token as int).bound() is Some
                &&& final(pool).object(token as int).listeners() == old(pool).object(
                    token as int,
                ).listeners()
                &&& final(pool).object(token as int).attached() == old(pool).object(
                    token as int,
                ).attached()
            },
    {
        proof {
            pool.lemma_unfold();
        }
        if token >= pool.slots.len() {
            return Err(OtcError::NullError);
        }
        if cell_get(&pool.slots[token].object.stream).is_none() {
            return Err(OtcError::NullError);
        }
        pool.attach(token, native)
    }

    /// The request that switches the subscription to the stream's video on or off.
    pub fn set_subscribe_to_video(&self, subscribe_to_video: bool) -> (r: Result<
        EngineCall,
        OtcError,
    >)
        ensures
            r == (if self.native().live() {
                Ok::<EngineCall, OtcError>(
                    (EngineCall::SubscriberSetSubscribeToVideo {
                        subscriber: self.native().key(),
                        enabled: subscribe_to_video,
                    }),
                )
            } else {
                Err::<EngineCall, OtcError>(OtcError::NullError)
            }),
    {
        match self.handle.checked() {
            Ok(key) => Ok(
                EngineCall::SubscriberSetSubscribeToVideo {
                    subscriber: key,
                    enabled: subscribe_to_video,
                },
            ),
            Err(e) => Err(e),
        }
    }

    /// The request that switches the subscription to the stream's audio on or off.
    pub fn set_subscribe_to_audio(&self, subscribe_to_audio: bool) -> (r: Result<
        EngineCall,
        OtcError,
    >)
        ensures
            r == (if self.native().live() {
                Ok::<EngineCall, OtcError>(
                    (EngineCall::SubscriberSetSubscribeToAudio {
                        subscriber: self.native().key(),
                        enabled: subscribe_to_audio,
                    }),
                )
            } else {
                Err::<EngineCall, OtcError>(OtcError::NullError)
            }),
    {
        match self.handle.checked() {
            Ok(key) => Ok(
                EngineCall::SubscriberSetSubscribeToAudio {
                    subscriber: key,
                    enabled: subscribe_to_audio,
                },
            ),
            Err(e) => Err(e),
        }
    }

    /// The request that asks whether the subscriber subscribes to video. The
    /// engine answers with one of its booleans.
    pub fn get_subscribe_to_video(&self) -> (r: Result<EngineCall, OtcError>)
        ensures
            r == (if self.native().live() {
                Ok::<EngineCall, OtcError>(
                    (EngineCall::SubscriberGetSubscribeToVideo { subscriber: self.native().key() }),
                )
            } else {
                Err::<EngineCall, OtcError>(OtcError::NullError)
            }),
    {
        match self.handle.checked() {
            Ok(key) => Ok(EngineCall::SubscriberGetSubscribeToVideo { subscriber: key }),
            Err(e) => Err(e),
        }
    }

    /// The request that asks whether the subscriber subscribes to audio. The
    /// engine answers with one of its booleans.
    pub fn get_subscribe_to_audio(&self) -> (r: Result<EngineCall, OtcError>)
        ensures
            r == (if self.native().live() {
                Ok::<EngineCall, OtcError>(
                    (EngineCall::SubscriberGetSubscribeToAudio { subscriber: self.native().key() }),
                )
            } else {
                Err::<EngineCall, OtcError>(OtcError::NullError)
            }),
    {
        match self.handle.checked() {
            Ok(key) => Ok(EngineCall::SubscriberGetSubscribeToAudio { subscriber: key }),
            Err(e) => Err(e),
        }
    }

    /// The request that sets the preferred resolution of the subscribed video.
    pub fn set_preferred_resolution(&self, width: u32, height: u32) -> (r: Result<
        EngineCall,
        OtcError,
    >)
        ensures
            r == (if self.native().live() {
                Ok::<EngineCall, OtcError>(
                    (EngineCall::SubscriberSetPreferredResolution {
                        subscriber: self.native().key(),
                        width,
                        height,
                    }),
                )
            } else {
                Err::<EngineCall, OtcError>(OtcError::NullError)
            }),
    {
        match self.handle.checked() {
            Ok(key) => Ok(
                EngineCall::SubscriberSetPreferredResolution { subscriber: key, width, height },
            ),
            Err(e) => Err(e),
        }
    }

    /// The request that asks for the preferred resolution. The engine answers
    /// with a status, a width and a height.
    pub fn get_preferred_resolution(&self) -> (r: Result<EngineCall, OtcError>)
        ensures
            r == (if self.native().live() {
                Ok::<EngineCall, OtcError>(
                    (EngineCall::SubscriberGetPreferredResolution { subscriber: self.native().key() }),
                )
            } else {
                Err::<EngineCall, OtcError>(OtcError::NullError)
            }),
    {
        match self.handle.checked() {
            Ok(key) => Ok(EngineCall::SubscriberGetPreferredResolution { subscriber: key }),
            Err(e) => Err(e),
        }
    }

    /// The request that sets the preferred frame rate, given as the bits of a
    /// 32-bit float.
    pub fn set_preferred_framerate(&self, framerate_bits: u32) -> (r: Result<EngineCall, OtcError>)
        ensures
            r == (if self.native().live() {
                Ok::<EngineCall, OtcError>(
                    (EngineCall::SubscriberSetPreferredFramerate {
                        subscriber: self.native().key(),
                        framerate_bits,
                    }),
                )
            } else {
                Err::<EngineCall, OtcError>(OtcError::NullError)
            }),
    {
        match self.handle.checked() {
            Ok(key) => Ok(
                EngineCall::SubscriberSetPreferredFramerate { subscriber: key, framerate_bits },
            ),
            Err(e) => Err(e),
        }
    }

    /// The request that asks for the preferred frame rate. The engine answers
    /// with a status and a 32-bit float.
    pub fn get_preferred_framerate(&self) -> (r: Result<EngineCall, OtcError>)
        ensures
            r == (if self.native().live() {
                Ok::<EngineCall, OtcError>(
                    (EngineCall::SubscriberGetPreferredFramerate { subscriber: self.native().key() }),
                )
            } else {
                Err::<EngineCall, OtcError>(OtcError::NullError)
            }),
    {
        match self.handle.checked() {
            Ok(key) => Ok(EngineCall::SubscriberGetPreferredFramerate { subscriber: key }),
            Err(e) => Err(e),
        }
    }

    /// The request that takes the subscriber out of the session that it is
    /// attached to; none if it is attached to no session.
    pub fn unsubscribe(&self) -> (call: Option<EngineCall>)
        ensures
            call == (if self.native().live() && self.attached() != 0 {
                Some(
                    (EngineCall::SessionUnsubscribe {
                        session: self.attached(),
                        subscriber: self.native().key(),
                    }),
                )
            } else {
                None::<EngineCall>
            }),
    {
        if self.handle.is_null() || self.session == 0 {
            None
        } else {
            Some(
                EngineCall::SessionUnsubscribe {
                    session: self.session,
                    subscriber: self.handle.inner(),
                },
            )
        }
    }

    /// Takes in the engine's answer to a subscribe request. If the engine
    /// accepted and the subscriber is live, it is attached to the session from
    /// then on. The answer is returned as a typed result.
    pub fn subscribed(pool: &mut Instances<Subscriber>, token: usize, session: usize, status: i32) -> (r:
        OtcResult)
        requires
            old(pool).wf(),
        ensures
            final(pool).wf(),
            bound_when_live(*old(pool)) ==> bound_when_live(*final(pool)),
            r == status.as_result(),
            final(pool).count() == old(pool).count(),
            final(pool).routes() == old(pool).routes(),
            final(pool).order() == old(pool).order(),
            forall|t: int|
                0 <= t < old(pool).count() ==> final(pool).owners(t) == old(pool).owners(t)
                    && final(pool).object(t).native() == old(pool).object(t).native()
                    && final(pool).object(t).listeners() == old(pool).object(t).listeners()
                    && final(pool).object(t).bound() == old(pool).object(t).bound(),
            forall|t: int|
                0 <= t < old(pool).count() && t != token ==> final(pool).object(t) == old(
                    pool,
                ).object(t),
            old(pool).live(token as int) ==> final(pool).object(token as int).attached() == (if r
                is Ok {
                session
            } else {
                old(pool).object(token as int).attached()
            }),
            !old(pool).live(token as int) ==> *final(pool) == *old(pool),
    {
        let r = status.into_result();
        proof {
            pool.lemma_unfold();
        }
        if r.is_ok() && token < pool.slots.len() && !pool.slots[token].object.handle.is_null() {
            let ghost before = *pool;
            pool.slots[token].object.session = session;
            proof {
                pool.lemma_same_handles(before);
                pool.lemma_unfold();
                if bound_when_live(before) {
                    assert forall|t: int|
                        0 <= t < pool.count() && (#[trigger] pool.object(t)).native().live() implies pool.object(
                        t,
                    ).bound() is Some by {
                        assert(before.object(t).native().live());
                        assert(before.object(t).bound() is Some);
                    }
                }
            }
        }
        r
    }

    /// Forgets the attachment of every subscriber that is attached to this
    /// session, which is called for when the session is given back.
    pub(crate) fn detach(pool: &mut Instances<Subscriber>, session: usize)
        requires
            old(pool).wf(),
        ensures
            subscribers_detached(*final(pool), *old(pool), session),
    {
        let ghost before = *pool;
        proof {
            pool.lemma_unfold();
        }
        let mut i: usize = 0;
        while i < pool.slots.len()
            invariant
                i <= pool.slots@.len(),
                pool.routes == before.routes,
                pool.slots@.len() == before.slots@.len(),
                forall|t: int|
                    0 <= t < before.slots@.len() ==> {
                        &&& (#[trigger] pool.slots@[t]).owners == before.slots@[t].owners
                        &&& pool.slots@[t].object.handle == before.slots@[t].object.handle
                        &&& pool.slots@[t].object.callbacks == before.slots@[t].object.callbacks
                        &&& pool.slots@[t].object.stream == before.slots@[t].object.stream
                        &&& pool.slots@[t].object.session == (if t < i && session != 0
                            && before.slots@[t].object.session == session {
                            0usize
                        } else {
                            before.slots@[t].object.session
                        })
                    },
            decreases pool.slots@.len() - i,
        {
            if session != 0 && pool.slots[i].object.session == session {
                pool.slots[i].object.session = 0;
            }
            i += 1;
        }
        proof {
            pool.lemma_same_handles(before);
            pool.lemma_unfold();
            before.lemma_unfold();
        }
    }

    /// Dispatches an event that the engine raised for the native subscriber with
    /// this identity. If no live subscriber is registered under it, the event is
    /// dropped and its native copies are given back. Otherwise the event goes to
    /// the listener for its kind, if there is one and the event came without a
    /// null pointer.
    pub fn dispatch(pool: &Instances<Subscriber>, target: usize, raw: RawSubscriberEvent) -> (d:
        Dispatch<SubscriberEvent>)
        requires
            pool.wf(),
        ensures
            !pool.routes().contains_key(target) || !raw.deliverable() ==> d.drops(raw.discards()),
            pool.routes().contains_key(target) && raw.deliverable() ==> exists|
                event: SubscriberEvent,
            | #[trigger]
                raw.converts_to(event) && pool.object(
                    pool.routes()[target] as int,
                ).listeners().outcome(target, event, d),
    {
        match pool.lookup(target) {
            None => Dispatch::dropped(raw.discard()),
            Some(subscriber) => match raw.into_event() {
                Ok(event) => subscriber.callbacks.deliver(target, event),
                Err(discard) => Dispatch::dropped(discard),
            },
        }
    }
}

/// A subscriber is bound once: on a subscriber that is bound, every further
/// attempt fails with `AlreadyInitialized`, whatever stream it brings, and the
/// outcome leaves the first stream in place; on one that is not bound, the
/// attempt succeeds.
pub proof fn lemma_second_binding_fails(subscriber: Subscriber)
    ensures
        subscriber.bound() is Some ==> set_stream_outcome(true, subscriber.bound() is Some) == Err::<
            (),
            OtcError,
        >(OtcError::AlreadyInitialized("stream")),
        subscriber.bound() is None ==> set_stream_outcome(true, subscriber.bound() is Some) == Ok::<
            (),
            OtcError,
        >(()),
{
}

/// When a subscriber that is attached to a session is given back, the request
/// to unsubscribe it comes strictly before the request to delete it, and the
/// delete request is the last one in every case.
pub proof fn lemma_unsubscribe_precedes_delete(key: usize, attached: usize)
    ensures
        subscriber_retire_calls(key, attached).last() == (EngineCall::SubscriberDelete {
            subscriber: key,
        }),
        attached != 0 ==> subscriber_retire_calls(key, attached).len() == 2
            && subscriber_retire_calls(key, attached)[0] == (EngineCall::SessionUnsubscribe {
            session: attached,
            subscriber: key,
        }),
        attached == 0 ==> subscriber_retire_calls(key, attached).len() == 1,
{
}

/// Every subscriber that has a native object is bound to a stream: the engine
/// creates a subscriber for a stream, and for nothing else.
pub open spec fn bound_when_live(pool: Instances<Subscriber>) -> bool {
    forall|t: int|
        0 <= t < pool.count() && (#[trigger] pool.object(t)).native().live() ==> pool.object(
            t,
        ).bound() is Some
}

/// A subscriber that is bound to no stream has no native object, so taking in
/// the native subscriber that the engine created for its first stream fails
/// only if the engine created nothing.
pub proof fn lemma_unbound_has_no_handle(pool: Instances<Subscriber>, token: int)
    requires
        bound_when_live(pool),
        0 <= token < pool.count(),
        pool.object(token).bound() is None,
    ensures
        !pool.live(token),
        forall|native: usize|
            native != 0 ==> #[trigger] created_outcome(true, true, native, pool.live(token)) == Ok::<
                (),
                OtcError,
            >(()),
{
}

/// The pool after every subscriber that was attached to this session lost that
/// attachment; nothing else differs. The null session detaches nothing.
pub open spec fn subscribers_detached(
    after: Instances<Subscriber>,
    before: Instances<Subscriber>,
    session: usize,
) -> bool {
    &&& after.wf()
    &&& after.count() == before.count()
    &&& after.routes() == before.routes()
    &&& after.order() == before.order()
    &&& forall|t: int|
        0 <= t < before.count() ==> {
            &&& after.owners(t) == before.owners(t)
            &&& (#[trigger] after.object(t)).native() == before.object(t).native()
            &&& after.object(t).listeners() == before.object(t).listeners()
            &&& after.object(t).bound() == before.object(t).bound()
            &&& after.object(t).attached() == (if session != 0 && before.object(t).attached()
                == session {
                0usize
            } else {
                before.object(t).attached()
            })
        }
}

/// What taking in the native subscriber that the engine created comes to. A
/// subscriber is created for a stream: without a subscriber, or without a
/// stream bound to it, there is nothing to take the native object, and the call
/// fails with `NullError`, as it does when the engine created nothing. A
/// subscriber that has a native object already fails with `AlreadyInitialized`.
pub open spec fn created_outcome(present: bool, bound: bool, native: usize, live: bool) -> Result<
    (),
    OtcError,
> {
    if !present || !bound {
        Err(OtcError::NullError)
    } else {
        crate::instances::attach_outcome(true, native, live)
    }
}

/// What an attempt to bind a subscriber to a stream comes to.
pub open spec fn set_stream_outcome(present: bool, bound: bool) -> Result<(), OtcError> {
    if !present {
        Err(OtcError::NullError)
    } else if bound {
        Err(OtcError::AlreadyInitialized("stream"))
    } else {
        Ok(())
    }
}

/// The truth value in the engine's answer to a question about a subscription.
pub fn subscription_flag(answer: i32) -> (b: bool)
    ensures
        b == (answer != 0),
{
    OtcBool(answer).value()
}

/// The preferred resolution in the engine's answer: the width and height, if
/// the status reports success, and the status's error otherwise.
pub fn preferred_resolution(status: i32, width: u32, height: u32) -> (r: Result<
    (u32, u32),
    OtcError,
>)
    ensures
        r == (match status.as_result() {
            Ok(()) => Ok::<(u32, u32), OtcError>((width, height)),
            Err(e) => Err::<(u32, u32), OtcError>(e),
        }),
{
    match status.into_result() {
        Ok(()) => Ok((width, height)),
        Err(e) => Err(e),
    }
}

/// The preferred frame rate in the engine's answer, as the bits of a 32-bit
/// float: the rate, if the status reports success, and the status's error
/// otherwise.
pub fn preferred_framerate(status: i32, framerate_bits: u32) -> (r: Result<u32, OtcError>)
    ensures
        r == (match status.as_result() {
            Ok(()) => Ok::<u32, OtcError>(framerate_bits),
            Err(e) => Err::<u32, OtcError>(e),
        }),
{
    match status.into_result() {
        Ok(()) => Ok(framerate_bits),
        Err(e) => Err(e),
    }
}

} // verus!
