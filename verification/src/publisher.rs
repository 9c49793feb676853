//! Publishers: outbound media sources, their listeners, the requests they
//! issue, and the dispatch of their events.

use vstd::prelude::*;
use vstd::std_specs::convert::FromSpecImpl;
use crate::codes;
use crate::engine::{c_compatible, is_c_compatible, EngineCall};
use crate::enums::{IntoResult, OtcError, OtcResult};
use crate::handle::NativeHandle;
use crate::instances::{Instances, Managed};
use crate::listener::{Dispatch, ListenerId};
use crate::session::{option_to_calls, owned_stream};
use crate::stream::{stream_release_calls, RawStream, Stream};
use crate::video_frame::{RawVideoFrame, VideoFrame};

verus! {

/// Error kinds of a publisher, delivered through its error listener.
#[derive(Clone, Copy, Debug, PartialEq, Eq)]
pub enum PublisherError {
    /// Internal error.
    Internal,
    /// Tried to publish on a disconnected session.
    SessionDisconnected,
    /// Unable to publish.
    UnableToPublish,
    /// Timed out attempting to publish.
    TimedOut,
    /// WebRTC error.
    WebRtcError,
    /// A code outside the known set.
    __Unknown,
}

/// The error kind that a code of the engine stands for.
pub open spec fn publisher_error_of(code: u32) -> PublisherError {
    if code == codes::OTC_PUBLISHER_INTERNAL_ERROR {
        PublisherError::Internal
    } else if code == codes::OTC_PUBLISHER_SESSION_DISCONNECTED {
        PublisherError::SessionDisconnected
    } else if code == codes::OTC_PUBLISHER_UNABLE_TO_PUBLISH {
        PublisherError::UnableToPublish
    } else if code == codes::OTC_PUBLISHER_TIMED_OUT {
        PublisherError::TimedOut
    } else if code == codes::OTC_PUBLISHER_WEBRTC_ERROR {
        PublisherError::WebRtcError
    } else {
        PublisherError::__Unknown
    }
}

impl From<u32> for PublisherError {
    fn from(code: u32) -> (kind: PublisherError) {
        if code == codes::OTC_PUBLISHER_INTERNAL_ERROR {
            PublisherError::Internal
        } else if code == codes::OTC_PUBLISHER_SESSION_DISCONNECTED {
            PublisherError::SessionDisconnected
        } else if code == codes::OTC_PUBLISHER_UNABLE_TO_PUBLISH {
            PublisherError::UnableToPublish
        } else if code == codes::OTC_PUBLISHER_TIMED_OUT {
            PublisherError::TimedOut
        } else if code == codes::OTC_PUBLISHER_WEBRTC_ERROR {
            PublisherError::WebRtcError
        } else {
            PublisherError::__Unknown
        }
    }
}

impl FromSpecImpl<u32> for PublisherError {
    open spec fn obeys_from_spec() -> bool {
        true
    }

    open spec fn from_spec(code: u32) -> PublisherError {
        publisher_error_of(code)
    }
}

/// The listeners of a publisher: at most one for each kind of event. An event
/// whose kind has no listener is ignored.
#[derive(Clone, Copy, Debug, PartialEq, Eq)]
pub struct PublisherCallbacks {
    /// The listener for the event: the publisher started streaming.
    pub on_stream_created: Option<ListenerId>,
    /// The listener for the event: the publisher stopped streaming.
    pub on_stream_destroyed: Option<ListenerId>,
    /// The listener for the event: a frame of the published video is ready to render.
    pub on_render_frame: Option<ListenerId>,
    /// The listener for the event: the audio level changed.
    pub on_audio_level_updated: Option<ListenerId>,
    /// The listener for the event: the publisher failed.
    pub on_error: Option<ListenerId>,
}

/// Collects the listeners of a publisher, one setter for each kind of event.
/// Setting a kind twice keeps the later listener.
#[derive(Clone, Copy, Debug, PartialEq, Eq)]
pub struct PublisherCallbacksBuilder {
    on_stream_created: Option<ListenerId>,
    on_stream_destroyed: Option<ListenerId>,
    on_render_frame: Option<ListenerId>,
    on_audio_level_updated: Option<ListenerId>,
    on_error: Option<ListenerId>,
}

impl PublisherCallbacksBuilder {
    /// The listeners collected so far.
    pub closed spec fn listeners(self) -> PublisherCallbacks {
        PublisherCallbacks {
            on_stream_created: self.on_stream_created,
            on_stream_destroyed: self.on_stream_destroyed,
            on_render_frame: self.on_render_frame,
            on_audio_level_updated: self.on_audio_level_updated,
            on_error: self.on_error,
        }
    }

    /// Registers the listener for the event: the publisher started streaming.
    pub fn on_stream_created(self, listener: ListenerId) -> (b: Self)
        ensures
            b.listeners() == (PublisherCallbacks { on_stream_created: Some(listener), ..self.listeners() }),
    {
        Self { on_stream_created: Some(listener), ..self }
    }

    /// Registers the listener for the event: the publisher stopped streaming.
    pub fn on_stream_destroyed(self, listener: ListenerId) -> (b: Self)
        ensures
            b.listeners() == (PublisherCallbacks { on_stream_destroyed: Some(listener), ..self.listeners() }),
    {
        Self { on_stream_destroyed: Some(listener), ..self }
    }

    /// Registers the listener for the event: a frame of the published video is ready to render.
    pub fn on_render_frame(self, listener: ListenerId) -> (b: Self)
        ensures
            b.listeners() == (PublisherCallbacks { on_render_frame: Some(listener), ..self.listeners() }),
    {
        Self { on_render_frame: Some(listener), ..self }
    }

    /// Registers the listener for the event: the audio level changed.
    pub fn on_audio_level_updated(self, listener: ListenerId) -> (b: Self)
        ensures
            b.listeners() == (PublisherCallbacks { on_audio_level_updated: Some(listener), ..self.listeners() }),
    {
        Self { on_audio_level_updated: Some(listener), ..self }
    }

    /// Registers the listener for the event: the publisher failed.
    pub fn on_error(self, listener: ListenerId) -> (b: Self)
        ensures
            b.listeners() == (PublisherCallbacks { on_error: Some(listener), ..self.listeners() }),
    {
        Self { on_error: Some(listener), ..self }
    }

    /// The finished listener set.
    pub fn build(self) -> (callbacks: PublisherCallbacks)
        ensures
            callbacks == self.listeners(),
    {
        PublisherCallbacks {
            on_stream_created: self.on_stream_created,
            on_stream_destroyed: self.on_stream_destroyed,
            on_render_frame: self.on_render_frame,
            on_audio_level_updated: self.on_audio_level_updated,
            on_error: self.on_error,
        }
    }
}

impl PublisherCallbacks {
    /// A listener set without any listener.
    pub open spec fn none() -> PublisherCallbacks {
        PublisherCallbacks {
            on_stream_created: None,
            on_stream_destroyed: None,
            on_render_frame: None,
            on_audio_level_updated: None,
            on_error: None,
        }
    }

    /// Starts a listener set with no listener in it.
    pub fn builder() -> (b: PublisherCallbacksBuilder)
        ensures
            b.listeners() == PublisherCallbacks::none(),
    {
        PublisherCallbacksBuilder {
            on_stream_created: None,
            on_stream_destroyed: None,
            on_render_frame: None,
            on_audio_level_updated: None,
            on_error: None,
        }
    }
}
/// An event of a publisher as the engine's callback delivered it.
#[derive(Debug)]
pub enum RawPublisherEvent {
    StreamCreated(RawStream),
    StreamDestroyed(RawStream),
    RenderFrame(RawVideoFrame),
    /// The audio level, as the bits of a 32-bit float.
    AudioLevelUpdated(u32),
    Error(Option<String>, u32),
}

/// An event of a publisher in safe values, which the listener owns.
#[derive(Debug)]
pub enum PublisherEvent {
    StreamCreated(Stream),
    StreamDestroyed(Stream),
    RenderFrame(VideoFrame),
    /// The audio level, as the bits of a 32-bit float.
    AudioLevelUpdated(u32),
    Error(String, PublisherError),
}

/// The delete request for a copied frame, if there is a copy.
pub open spec fn frame_release_calls(frame: usize) -> Seq<EngineCall> {
    if frame != 0 {
        seq![(EngineCall::VideoFrameDelete { frame })]
    } else {
        Seq::<EngineCall>::empty()
    }
}

/// The snapshot of a copied frame, or nothing for a null one.
pub(crate) fn owned_frame(raw: RawVideoFrame) -> (r: Option<VideoFrame>)
    ensures
        raw.addr != 0 ==> r is Some && r->Some_0.mirrors(raw),
        raw.addr == 0 ==> r is None,
{
    if raw.addr == 0 {
        None
    } else {
        Some(VideoFrame::from_raw(raw))
    }
}

impl RawPublisherEvent {
    /// Whether the event can be handed to a listener: every pointer that it
    /// came with was there.
    pub open spec fn deliverable(self) -> bool {
        match self {
            RawPublisherEvent::StreamCreated(s) => s.addr != 0,
            RawPublisherEvent::StreamDestroyed(s) => s.addr != 0,
            RawPublisherEvent::RenderFrame(f) => f.addr != 0,
            RawPublisherEvent::AudioLevelUpdated(_) => true,
            RawPublisherEvent::Error(message, _) => message is Some,
        }
    }

    /// The requests that give back the native copies that the event came with.
    pub open spec fn discards(self) -> Seq<EngineCall> {
        match self {
            RawPublisherEvent::StreamCreated(s) => stream_release_calls(s.connection.addr, s.addr),
            RawPublisherEvent::StreamDestroyed(s) => stream_release_calls(s.connection.addr, s.addr),
            RawPublisherEvent::RenderFrame(f) => frame_release_calls(f.addr),
            _ => Seq::<EngineCall>::empty(),
        }
    }

    /// The safe event says what the raw event said.
    pub open spec fn converts_to(self, event: PublisherEvent) -> bool {
        match (self, event) {
            (RawPublisherEvent::StreamCreated(raw), PublisherEvent::StreamCreated(s)) => s.mirrors(raw),
            (RawPublisherEvent::StreamDestroyed(raw), PublisherEvent::StreamDestroyed(s)) => s.mirrors(
                raw,
            ),
            (RawPublisherEvent::RenderFrame(raw), PublisherEvent::RenderFrame(f)) => f.mirrors(raw),
            (RawPublisherEvent::AudioLevelUpdated(raw), PublisherEvent::AudioLevelUpdated(level)) => raw
                == level,
            (RawPublisherEvent::Error(raw_message, code), PublisherEvent::Error(message, kind)) =>
                raw_message == Some(message) && kind == publisher_error_of(code),
            _ => false,
        }
    }

    /// What the event says of the publisher's stream: `Some(true)` when it was
    /// created, `Some(false)` when it was destroyed, nothing otherwise.
    pub open spec fn publishing_after(self) -> Option<bool> {
        match self {
            RawPublisherEvent::StreamCreated(_) => Some(true),
            RawPublisherEvent::StreamDestroyed(_) => Some(false),
            _ => None,
        }
    }

    fn publishing_change(&self) -> (change: Option<bool>)
        ensures
            change == self.publishing_after(),
    {
        match self {
            RawPublisherEvent::StreamCreated(_) => Some(true),
            RawPublisherEvent::StreamDestroyed(_) => Some(false),
            _ => None,
        }
    }

    /// Converts the event for a listener. An event that came with a null pointer
    /// cannot be delivered: it yields the requests that give back whatever native
    /// copies it did come with.
    pub fn into_event(self) -> (r: Result<PublisherEvent, Vec<EngineCall>>)
        ensures
            self.deliverable() ==> r is Ok && self.converts_to(r->Ok_0),
            !self.deliverable() ==> r is Err && r->Err_0@ == self.discards(),
    {
        match self {
            RawPublisherEvent::StreamCreated(raw) => match owned_stream(raw) {
                Ok(s) => Ok(PublisherEvent::StreamCreated(s)),
                Err(calls) => Err(calls),
            },
            RawPublisherEvent::StreamDestroyed(raw) => match owned_stream(raw) {
                Ok(s) => Ok(PublisherEvent::StreamDestroyed(s)),
                Err(calls) => Err(calls),
            },
            RawPublisherEvent::RenderFrame(raw) => match owned_frame(raw) {
                Some(f) => Ok(PublisherEvent::RenderFrame(f)),
                None => Err(Vec::new()),
            },
            RawPublisherEvent::AudioLevelUpdated(level) => Ok(PublisherEvent::AudioLevelUpdated(level)),
            RawPublisherEvent::Error(message, code) => match message {
                Some(message) => Ok(PublisherEvent::Error(message, PublisherError::from(code))),
                None => Err(Vec::new()),
            },
        }
    }

    /// Gives back the native copies of a raw event that finds no object.
    pub fn discard(self) -> (calls: Vec<EngineCall>)
        ensures
            calls@ == self.discards(),
    {
        match self {
            RawPublisherEvent::StreamCreated(raw) => {
                let mut s = Stream::from_raw(raw);
                s.release()
            },
            RawPublisherEvent::StreamDestroyed(raw) => {
                let mut s = Stream::from_raw(raw);
                s.release()
            },
            RawPublisherEvent::RenderFrame(raw) => {
                let mut f = VideoFrame::from_raw(raw);
                option_to_calls(f.release())
            },
            _ => Vec::new(),
        }
    }
}

impl PublisherEvent {
    /// The requests that give back the native copies that the event owns.
    pub open spec fn discards(self) -> Seq<EngineCall> {
        match self {
            PublisherEvent::StreamCreated(s) => stream_release_calls(
                s.connection().native().key(),
                s.native().key(),
            ),
            PublisherEvent::StreamDestroyed(s) => stream_release_calls(
                s.connection().native().key(),
                s.native().key(),
            ),
            PublisherEvent::RenderFrame(f) => frame_release_calls(f.native().key()),
            _ => Seq::<EngineCall>::empty(),
        }
    }

    /// Gives back the native copies of an event that nobody will receive.
    pub fn discard(self) -> (calls: Vec<EngineCall>)
        ensures
            calls@ == self.discards(),
    {
        match self {
            PublisherEvent::StreamCreated(s) => {
                let mut s = s;
                s.release()
            },
            PublisherEvent::StreamDestroyed(s) => {
                let mut s = s;
                s.release()
            },
            PublisherEvent::RenderFrame(f) => {
                let mut f = f;
                option_to_calls(f.release())
            },
            _ => Vec::new(),
        }
    }
}

impl PublisherCallbacks {
    /// The listener that an event goes to, if its kind has one.
    pub open spec fn listener_of(self, event: PublisherEvent) -> Option<ListenerId> {
        match event {
            PublisherEvent::StreamCreated(_) => self.on_stream_created,
            PublisherEvent::StreamDestroyed(_) => self.on_stream_destroyed,
            PublisherEvent::RenderFrame(_) => self.on_render_frame,
            PublisherEvent::AudioLevelUpdated(_) => self.on_audio_level_updated,
            PublisherEvent::Error(_, _) => self.on_error,
        }
    }

    fn pick(&self, event: &PublisherEvent) -> (listener: Option<ListenerId>)
        ensures
            listener == self.listener_of(*event),
    {
        match event {
            PublisherEvent::StreamCreated(_) => self.on_stream_created,
            PublisherEvent::StreamDestroyed(_) => self.on_stream_destroyed,
            PublisherEvent::RenderFrame(_) => self.on_render_frame,
            PublisherEvent::AudioLevelUpdated(_) => self.on_audio_level_updated,
            PublisherEvent::Error(_, _) => self.on_error,
        }
    }

    /// What becomes of an event: it reaches the listener for its kind, or,
    /// without such a listener, it is ignored and the native copies that it owns
    /// are given back.
    pub open spec fn outcome(self, target: usize, event: PublisherEvent, d: Dispatch<PublisherEvent>) -> bool {
        match self.listener_of(event) {
            Some(listener) => d.delivers(listener, target, event),
            None => d.drops(event.discards()),
        }
    }

    /// Hands an event of the publisher with this identity to the listener for
    /// its kind.
    pub fn deliver(&self, publisher: usize, event: PublisherEvent) -> (d: Dispatch<PublisherEvent>)
        ensures
            self.outcome(publisher, event, d),
    {
        match self.pick(&event) {
            Some(listener) => Dispatch::deliver(listener, publisher, event),
            None => Dispatch::dropped(event.discard()),
        }
    }
}

/// An outbound media source.
#[derive(Debug)]
pub struct Publisher {
    handle: NativeHandle,
    capturer: Option<usize>,
    callbacks: PublisherCallbacks,
    publishing: bool,
    session: usize,
}

/// The requests that give a publisher back: if it is attached to a session, it
/// is unpublished from that session first; the delete request comes last.
pub open spec fn publisher_retire_calls(key: usize, attached: usize) -> Seq<EngineCall> {
    if attached != 0 {
        seq![
            (EngineCall::SessionUnpublish { session: attached, publisher: key }),
            (EngineCall::PublisherDelete { publisher: key }),
        ]
    } else {
        seq![(EngineCall::PublisherDelete { publisher: key })]
    }
}

/// When a publisher that is attached to a session is given back, the request
/// to unpublish it comes strictly before the request to delete it, and the
/// delete request is the last one in every case.
pub proof fn lemma_unpublish_precedes_delete(key: usize, attached: usize)
    ensures
        publisher_retire_calls(key, attached).last() == (EngineCall::PublisherDelete {
            publisher: key,
        }),
        attached != 0 ==> publisher_retire_calls(key, attached).len() == 2
            && publisher_retire_calls(key, attached)[0] == (EngineCall::SessionUnpublish {
            session: attached,
            publisher: key,
        }),
        attached == 0 ==> publisher_retire_calls(key, attached).len() == 1,
{
}

/// The pool after every publisher that was attached to this session lost that
/// attachment; nothing else differs. The null session detaches nothing.
pub open spec fn publishers_detached(
    after: Instances<Publisher>,
    before: Instances<Publisher>,
    session: usize,
) -> bool {
    &&& after.wf()
    &&& after.count() == before.count()
    &&& after.routes() == before.routes()
    &&& after.order() == before.order()
    &&& forall|t: int|
        0 <= t < before.count() ==> {
            &&& after.owners(t) == before.owners(t)
            &&& (#[trigger] after.object(t)).native() == before.object(t).native()
            &&& after.object(t).listeners() == before.object(t).listeners()
            &&& after.object(t).capturer() == before.object(t).capturer()
            &&& after.object(t).publishing() == before.object(t).publishing()
            &&& after.object(t).attached() == (if session != 0 && before.object(t).attached()
                == session {
                0usize
            } else {
                before.object(t).attached()
            })
        }
}

/// The name that the engine is given for a publisher: the name itself, or the
/// empty text where the name cannot be a C string.
pub open spec fn publisher_name(name: &str) -> Seq<char> {
    if c_compatible(name) {
        name@
    } else {
        Seq::<char>::empty()
    }
}

impl Managed for Publisher {
    closed spec fn native(&self) -> NativeHandle {
        self.handle
    }

    closed spec fn attached(&self) -> usize {
        self.session
    }

    open spec fn retire_calls(key: usize, attached: usize) -> Seq<EngineCall> {
        publisher_retire_calls(key, attached)
    }

    closed spec fn retired(self) -> Self {
        Publisher { handle: NativeHandle::null_spec(), publishing: false, session: 0, ..self }
    }

    closed spec fn adopted(self, native: usize) -> Self {
        Publisher { handle: NativeHandle::wrap_spec(native), ..self }
    }

    fn handle(&self) -> (h: &NativeHandle) {
        &self.handle
    }

    fn adopt(&mut self, native: usize) {
        self.handle = NativeHandle::wrap(native);
    }

    fn retire(&mut self) -> (calls: Vec<EngineCall>) {
        let attached = self.session;
        let addr = self.handle.inner();
        let mut calls: Vec<EngineCall> = Vec::new();
        if addr != 0 {
            if attached != 0 {
                calls.push(EngineCall::SessionUnpublish { session: attached, publisher: addr });
            }
            calls.push(EngineCall::PublisherDelete { publisher: addr });
        }
        self.handle = NativeHandle::null();
        self.publishing = false;
        self.session = 0;
        calls
    }
}

impl Publisher {
    /// The listeners of the publisher.
    pub closed spec fn listeners(self) -> PublisherCallbacks {
        self.callbacks
    }

    /// The token of the custom video capturer that feeds the publisher, if any.
    pub closed spec fn capturer(self) -> Option<usize> {
        self.capturer
    }

    /// Whether the stream-created event has fired and the stream still exists.
    pub closed spec fn publishing(self) -> bool {
        self.publishing
    }

    /// A publisher as it is right after creation: not publishing, and attached
    /// to no session.
    pub open spec fn is_fresh(
        self,
        native: usize,
        capturer: Option<usize>,
        callbacks: PublisherCallbacks,
    ) -> bool {
        &&& self.native().key() == native
        &&& self.native().owned()
        &&& self.capturer() == capturer
        &&& self.listeners() == callbacks
        &&& !self.publishing()
        &&& self.attached() == 0
    }

    /// The request that creates a publisher. A name that cannot be a C string is
    /// replaced by the empty name. The capturer, if any, is named by its token,
    /// for the host to forward that capturer's dispatch table.
    pub fn creation_call(name: &str, capturer: Option<usize>) -> (call: EngineCall)
        ensures
            call matches EngineCall::PublisherNew { name: n, capturer: c } && n@ == publisher_name(
                name,
            ) && c == capturer,
    {
        let name = if is_c_compatible(name) {
            name.to_owned()
        } else {
            String::new()
        };
        EngineCall::PublisherNew { name, capturer }
    }

    /// Puts the publisher that the engine created into the pool, registered
    /// under its handle, and returns its token. If the engine created nothing
    /// the call fails with `NullError` and leaves the pool as it was. Otherwise
    /// the publisher is registered, whatever the engine's handle is: no other
    /// identity is added or removed, and a stale object that was still
    /// registered under this identity is retired.
    pub fn new(
        pool: &mut Instances<Publisher>,
        capturer: Option<usize>,
        callbacks: PublisherCallbacks,
        native: usize,
    ) -> (r: Result<usize, OtcError>)
        requires
            old(pool).wf(),
        ensures
            final(pool).wf(),
            native == 0 ==> r == Err::<usize, OtcError>(OtcError::NullError),
            r is Err ==> *final(pool) == *old(pool),
            native != 0 ==> {
                &&& r == Ok::<usize, OtcError>(old(pool).count() as usize)
                &&& final(pool).count() == old(pool).count() + 1
                &&& final(pool).object(old(pool).count() as int).is_fresh(native, capturer, callbacks)
                &&& final(pool).owners(old(pool).count() as int) == 1
                &&& final(pool).registers(*old(pool), native, old(pool).count() as usize)
            },
    {
        match NativeHandle::adopt(native) {
            Ok(handle) => Ok(
                pool.add(Publisher { handle, capturer, callbacks, publishing: false, session: 0 }),
            ),
            Err(e) => Err(e),
        }
    }

    /// The identity key of the publisher; zero once it was given back.
    pub fn inner(&self) -> (k: usize)
        ensures
            k == self.native().key(),
    {
        self.handle.inner()
    }

    /// The listeners of the publisher.
    pub fn callbacks(&self) -> (c: PublisherCallbacks)
        ensures
            c == self.listeners(),
    {
        self.callbacks
    }

    /// The identity of the session that the publisher is attached to; zero if none.
    pub fn session(&self) -> (s: usize)
        ensures
            s == self.attached(),
    {
        self.session
    }

    /// The request that switches the published audio on or off.
    pub fn toggle_audio(&self, audio_enabled: bool) -> (r: Result<EngineCall, OtcError>)
        ensures
            r == (if self.native().live() {
                Ok::<EngineCall, OtcError>(
                    (EngineCall::PublisherSetPublishAudio {
                        publisher: self.native().key(),
                        enabled: audio_enabled,
                    }),
                )
            } else {
                Err::<EngineCall, OtcError>(OtcError::NullError)
            }),
    {
        match self.handle.checked() {
            Ok(key) => Ok(
                EngineCall::PublisherSetPublishAudio { publisher: key, enabled: audio_enabled },
            ),
            Err(e) => Err(e),
        }
    }

    /// The request that switches the published video on or off.
    pub fn toggle_video(&self, video_enabled: bool) -> (r: Result<EngineCall, OtcError>)
        ensures
            r == (if self.native().live() {
                Ok::<EngineCall, OtcError>(
                    (EngineCall::PublisherSetPublishVideo {
                        publisher: self.native().key(),
                        enabled: video_enabled,
                    }),
                )
            } else {
                Err::<EngineCall, OtcError>(OtcError::NullError)
            }),
    {
        match self.handle.checked() {
            Ok(key) => Ok(
                EngineCall::PublisherSetPublishVideo { publisher: key, enabled: video_enabled },
            ),
            Err(e) => Err(e),
        }
    }

    /// The request that fetches the publisher's stream. There is a stream once
    /// the stream-created event has fired, and none before, nor after the
    /// stream was destroyed or the publisher was given back.
    pub fn stream(&self) -> (call: Option<EngineCall>)
        ensures
            call == (if self.native().live() && self.publishing() {
                Some((EngineCall::PublisherGetStream { publisher: self.native().key() }))
            } else {
                None::<EngineCall>
            }),
    {
        if self.handle.is_null() || !self.publishing {
            None
        } else {
            Some(EngineCall::PublisherGetStream { publisher: self.handle.inner() })
        }
    }

    /// The request that takes the publisher out of the session that it is
    /// attached to; none if it is attached to no session.
    pub fn unpublish(&self) -> (call: Option<EngineCall>)
        ensures
            call == (if self.native().live() && self.attached() != 0 {
                Some(
                    (EngineCall::SessionUnpublish {
                        session: self.attached(),
                        publisher: self.native().key(),
                    }),
                )
            } else {
                None::<EngineCall>
            }),
    {
        if self.handle.is_null() || self.session == 0 {
            None
        } else {
            Some(
                EngineCall::SessionUnpublish {
                    session: self.session,
                    publisher: self.handle.inner(),
                },
            )
        }
    }

    /// Takes in the engine's answer to a publish request. If the engine accepted
    /// and the publisher is live, it is attached to the session from then on.
    /// The answer is returned as a typed result.
    pub fn published(pool: &mut Instances<Publisher>, token: usize, session: usize, status: i32) -> (r:
        OtcResult)
        requires
            old(pool).wf(),
        ensures
            final(pool).wf(),
            r == status.as_result(),
            final(pool).count() == old(pool).count(),
            final(pool).routes() == old(pool).routes(),
            final(pool).order() == old(pool).order(),
            forall|t: int|
                0 <= t < old(pool).count() ==> final(pool).owners(t) == old(pool).owners(t)
                    && final(pool).object(t).native() == old(pool).object(t).native()
                    && final(pool).object(t).listeners() == old(pool).object(t).listeners()
                    && final(pool).object(t).publishing() == old(pool).object(t).publishing(),
            forall|t: int|
                0 <= t < old(pool).count() && t != token ==> final(pool).object(t) == old(
                    pool,
                ).object(t),
            old(pool).live(token as int) ==> final(pool).object(token as int).attached() == (if r
                is Ok {
                session
            } else {
                old(pool).object(token as int).attached()
            }),
            !old(pool).live(token as int) ==> *final(pool) == *old(pool),
    {
        let r = status.into_result();
        proof {
            pool.lemma_unfold();
        }
        if r.is_ok() && token < pool.slots.len() && !pool.slots[token].object.handle.is_null() {
            let ghost before = *pool;
            pool.slots[token].object.session = session;
            proof {
                pool.lemma_same_handles(before);
                pool.lemma_unfold();
            }
        }
        r
    }

    /// Forgets the attachment of every publisher that is attached to this
    /// session, which is called for when the session is given back.
    pub(crate) fn detach(pool: &mut Instances<Publisher>, session: usize)
        requires
            old(pool).wf(),
        ensures
            publishers_detached(*final(pool), *old(pool), session),
    {
        let ghost before = *pool;
        proof {
            pool.lemma_unfold();
        }
        let mut i: usize = 0;
        while i < pool.slots.len()
            invariant
                i <= pool.slots@.len(),
                pool.routes == before.routes,
                pool.slots@.len() == before.slots@.len(),
                forall|t: int|
                    0 <= t < before.slots@.len() ==> {
                        &&& (#[trigger] pool.slots@[t]).owners == before.slots@[t].owners
                        &&& pool.slots@[t].object.handle == before.slots@[t].object.handle
                        &&& pool.slots@[t].object.callbacks == before.slots@[t].object.callbacks
                        &&& pool.slots@[t].object.capturer == before.slots@[t].object.capturer
                        &&& pool.slots@[t].object.publishing == before.slots@[t].object.publishing
                        &&& pool.slots@[t].object.session == (if t < i && session != 0
                            && before.slots@[t].object.session == session {
                            0usize
                        } else {
                            before.slots@[t].object.session
                        })
                    },
            decreases pool.slots@.len() - i,
        {
            if session != 0 && pool.slots[i].object.session == session {
                pool.slots[i].object.session = 0;
            }
            i += 1;
        }
        proof {
            pool.lemma_same_handles(before);
            pool.lemma_unfold();
            before.lemma_unfold();
        }
    }

    /// Dispatches an event that the engine raised for the native publisher with
    /// this identity. If no live publisher is registered under it, the event is
    /// dropped and its native copies are given back. Otherwise the publisher
    /// notes whether it has a stream, and the event goes to the listener for its
    /// kind, if there is one and the event came without a null pointer.
    pub fn dispatch(pool: &mut Instances<Publisher>, target: usize, raw: RawPublisherEvent) -> (d:
        Dispatch<PublisherEvent>)
        requires
            old(pool).wf(),
        ensures
            final(pool).wf(),
            final(pool).count() == old(pool).count(),
            final(pool).routes() == old(pool).routes(),
            final(pool).order() == old(pool).order(),
            !old(pool).routes().contains_key(target) ==> d.drops(raw.discards()) && *final(pool)
                == *old(pool),
            old(pool).routes().contains_key(target) ==> {
                let token = old(pool).routes()[target] as int;
                &&& !raw.deliverable() ==> d.drops(raw.discards())
                &&& raw.deliverable() ==> exists|event: PublisherEvent| #[trigger]
                    raw.converts_to(event) && old(pool).object(token).listeners().outcome(
                        target,
                        event,
                        d,
                    )
                &&& final(pool).object(token).publishing() == (match raw.publishing_after() {
                    Some(b) => b,
                    None => old(pool).object(token).publishing(),
                })
                &&& final(pool).object(token).native() == old(pool).object(token).native()
                &&& final(pool).object(token).attached() == old(pool).object(token).attached()
                &&& final(pool).object(token).listeners() == old(pool).object(token).listeners()
                &&& forall|t: int|
                    0 <= t < old(pool).count() ==> final(pool).owners(t) == old(pool).owners(t)
                &&& forall|t: int|
                    0 <= t < old(pool).count() && t != token ==> final(pool).object(t) == old(
                        pool,
                    ).object(t)
            },
    {
        let token = match pool.route(target) {
            Some(token) => token,
            None => {
                return Dispatch::dropped(raw.discard());
            },
        };
        proof {
            pool.lemma_route_is_live(target);
            pool.lemma_unfold();
        }
        let ghost before = *pool;
        match raw.publishing_change() {
            Some(b) => {
                pool.slots[token].object.publishing = b;
            },
            None => {},
        }
        proof {
            pool.lemma_same_handles(before);
            pool.lemma_unfold();
        }
        let callbacks = pool.slots[token].object.callbacks;
        match raw.into_event() {
            Ok(event) => callbacks.deliver(target, event),
            Err(discard) => Dispatch::dropped(discard),
        }
    }
}

} // verus!
