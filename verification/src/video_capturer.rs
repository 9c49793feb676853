//! Custom video sources: their settings, their listeners, and the answers to
//! the engine's requests.
//!
//! A capturer is inert until the engine initialises it, which is when it learns
//! its native handle. The engine finds the capturer through a token that the
//! host picks when the capturer is made and hands over with the dispatch table.

use vstd::prelude::*;
use crate::engine::EngineCall;
use crate::enums::{OtcBool, OtcError, OtcResult};
use crate::handle::NativeHandle;
use crate::listener::ListenerId;
use crate::registry::Registry;
use crate::video_frame::{FrameFormat, VideoFrame};

verus! {

/// Settings of a video capturer, fixed when it is made.
#[derive(Clone, Copy, Debug, PartialEq, Eq)]
pub struct VideoCapturerSettings {
    /// The pixel format.
    pub format: FrameFormat,
    /// The width of the video in pixels.
    pub width: i32,
    /// The height of the video in pixels.
    pub height: i32,
    /// The estimated number of frames per second.
    pub fps: i32,
    /// The estimated capture delay, in milliseconds.
    pub expected_delay: i32,
    /// Whether the frame should appear mirrored on the x-axis in the local
    /// renderer.
    pub mirror_on_local_render: bool,
}

/// The settings that a capturer has unless told otherwise: planar YUV 4:2:0,
/// 1280 by 720 pixels, 30 frames per second, no delay, not mirrored.
pub open spec fn default_capturer_settings() -> VideoCapturerSettings {
    VideoCapturerSettings {
        format: FrameFormat::Yuv420P,
        width: 1280,
        height: 720,
        fps: 30,
        expected_delay: 0,
        mirror_on_local_render: false,
    }
}

impl Default for VideoCapturerSettings {
    fn default() -> (settings: VideoCapturerSettings)
        ensures
            settings == default_capturer_settings(),
    {
        VideoCapturerSettings {
            format: FrameFormat::Yuv420P,
            width: 1280,
            height: 720,
            fps: 30,
            expected_delay: 0,
            mirror_on_local_render: false,
        }
    }
}

/// The settings as the engine reads them: the format by its code, the mirror
/// flag as one of the engine's booleans.
#[derive(Clone, Copy, Debug, PartialEq, Eq)]
pub struct RawCapturerSettings {
    pub format: u32,
    pub width: i32,
    pub height: i32,
    pub fps: i32,
    pub expected_delay: i32,
    pub mirror_on_local_render: i32,
}

/// The listeners of a video capturer: at most one for each request of the engine.
/// A request without a listener is answered with success.
#[derive(Clone, Copy, Debug, PartialEq, Eq)]
pub struct VideoCapturerCallbacks {
    /// The listener for the event: the engine initialised the capturer.
    pub init: Option<ListenerId>,
    /// The listener for the event: the engine destroyed the capturer.
    pub destroy: Option<ListenerId>,
    /// The listener for the event: the engine asks the capturer to start.
    pub start: Option<ListenerId>,
    /// The listener for the event: the engine asks the capturer to stop.
    pub stop: Option<ListenerId>,
}

/// Collects the listeners of a video capturer, one setter for each kind of event.
/// Setting a kind twice keeps the later listener.
#[derive(Clone, Copy, Debug, PartialEq, Eq)]
pub struct VideoCapturerCallbacksBuilder {
    init: Option<ListenerId>,
    destroy: Option<ListenerId>,
    start: Option<ListenerId>,
    stop: Option<ListenerId>,
}

impl VideoCapturerCallbacksBuilder {
    /// The listeners collected so far.
    pub closed spec fn listeners(self) -> VideoCapturerCallbacks {
        VideoCapturerCallbacks {
            init: self.init,
            destroy: self.destroy,
            start: self.start,
            stop: self.stop,
        }
    }

    /// Registers the listener for the event: the engine initialised the capturer.
    pub fn init(self, listener: ListenerId) -> (b: Self)
        ensures
            b.listeners() == (VideoCapturerCallbacks { init: Some(listener), ..self.listeners() }),
    {
        Self { init: Some(listener), ..self }
    }

    /// Registers the listener for the event: the engine destroyed the capturer.
    pub fn destroy(self, listener: ListenerId) -> (b: Self)
        ensures
            b.listeners() == (VideoCapturerCallbacks { destroy: Some(listener), ..self.listeners() }),
    {
        Self { destroy: Some(listener), ..self }
    }

    /// Registers the listener for the event: the engine asks the capturer to start.
    pub fn start(self, listener: ListenerId) -> (b: Self)
        ensures
            b.listeners() == (VideoCapturerCallbacks { start: Some(listener), ..self.listeners() }),
    {
        Self { start: Some(listener), ..self }
    }

    /// Registers the listener for the event: the engine asks the capturer to stop.
    pub fn stop(self, listener: ListenerId) -> (b: Self)
        ensures
            b.listeners() == (VideoCapturerCallbacks { stop: Some(listener), ..self.listeners() }),
    {
        Self { stop: Some(listener), ..self }
    }

    /// The finished listener set.
    pub fn build(self) -> (callbacks: VideoCapturerCallbacks)
        ensures
            callbacks == self.listeners(),
    {
        VideoCapturerCallbacks {
            init: self.init,
            destroy: self.destroy,
            start: self.start,
            stop: self.stop,
        }
    }
}

impl VideoCapturerCallbacks {
    /// A listener set without any listener.
    pub open spec fn none() -> VideoCapturerCallbacks {
        VideoCapturerCallbacks {
            init: None,
            destroy: None,
            start: None,
            stop: None,
        }
    }

    /// Starts a listener set with no listener in it.
    pub fn builder() -> (b: VideoCapturerCallbacksBuilder)
        ensures
            b.listeners() == VideoCapturerCallbacks::none(),
    {
        VideoCapturerCallbacksBuilder {
            init: None,
            destroy: None,
            start: None,
            stop: None,
        }
    }
}
/// Which entries of the dispatch table the host installs for a capturer, and
/// the token that the engine hands back with every request.
#[derive(Clone, Copy, Debug, PartialEq, Eq)]
pub struct CapturerTable {
    pub init: bool,
    pub destroy: bool,
    pub start: bool,
    pub stop: bool,
    pub get_capture_settings: bool,
    pub user_data: usize,
}

/// A request of the engine to a capturer.
#[derive(Clone, Copy, Debug, PartialEq, Eq)]
pub enum CapturerRequest {
    /// The engine initialised the capturer and supplies its native handle.
    Init(usize),
    Destroy,
    Start,
    Stop,
}

/// What the host does about a request of the engine.
#[derive(Clone, Copy, Debug, PartialEq, Eq)]
pub enum CapturerReply {
    /// Answer at once with this boolean of the engine.
    Answer(i32),
    /// Call this listener with the capturer's token, and answer with the
    /// boolean that stands for its result.
    Ask { listener: ListenerId, capturer: usize },
}

/// A custom video source.
#[derive(Debug)]
pub struct VideoCapturer {
    instance_id: usize,
    handle: NativeHandle,
    settings: VideoCapturerSettings,
    callbacks: VideoCapturerCallbacks,
}

impl VideoCapturerCallbacks {
    /// The listener that a request goes to, if its kind has one.
    pub open spec fn listener_of(self, request: CapturerRequest) -> Option<ListenerId> {
        match request {
            CapturerRequest::Init(_) => self.init,
            CapturerRequest::Destroy => self.destroy,
            CapturerRequest::Start => self.start,
            CapturerRequest::Stop => self.stop,
        }
    }

    fn pick(&self, request: CapturerRequest) -> (listener: Option<ListenerId>)
        ensures
            listener == self.listener_of(request),
    {
        match request {
            CapturerRequest::Init(_) => self.init,
            CapturerRequest::Destroy => self.destroy,
            CapturerRequest::Start => self.start,
            CapturerRequest::Stop => self.stop,
        }
    }

    /// The reply to a request for the capturer with this token: the listener
    /// for its kind decides; without such a listener the request succeeds.
    pub open spec fn reply_to(self, capturer: usize, request: CapturerRequest) -> CapturerReply {
        match self.listener_of(request) {
            Some(listener) => CapturerReply::Ask { listener, capturer },
            None => CapturerReply::Answer(1),
        }
    }
}

impl VideoCapturer {
    /// The token under which the capturer is registered.
    pub closed spec fn instance_id(self) -> usize {
        self.instance_id
    }

    /// The capturer's native handle: null until the engine initialised it.
    pub closed spec fn native(self) -> NativeHandle {
        self.handle
    }

    pub closed spec fn settings(self) -> VideoCapturerSettings {
        self.settings
    }

    /// The listeners of the capturer.
    pub closed spec fn listeners(self) -> VideoCapturerCallbacks {
        self.callbacks
    }

    /// A capturer as it is right after it was made: without a native handle.
    pub open spec fn is_fresh(
        self,
        instance_id: usize,
        settings: VideoCapturerSettings,
        callbacks: VideoCapturerCallbacks,
    ) -> bool {
        &&& self.instance_id() == instance_id
        &&& !self.native().live()
        &&& self.settings() == settings
        &&& self.listeners() == callbacks
    }

    /// The capturer once the engine has supplied this handle.
    pub closed spec fn initialised(self, native: usize) -> VideoCapturer {
        VideoCapturer { handle: NativeHandle::borrow_spec(native), ..self }
    }

    /// What initialising leaves as it was, and what it sets.
    pub proof fn lemma_initialised(self, native: usize)
        ensures
            self.initialised(native).native().key() == native,
            !self.initialised(native).native().owned(),
            self.initialised(native).instance_id() == self.instance_id(),
            self.initialised(native).settings() == self.settings(),
            self.initialised(native).listeners() == self.listeners(),
    {
        NativeHandle::lemma_borrow_spec(native);
    }

    /// Makes a capturer and registers it under a new token, one more than the
    /// number of capturers registered so far. The token is returned.
    pub fn new(
        registry: &mut Registry<VideoCapturer>,
        settings: VideoCapturerSettings,
        callbacks: VideoCapturerCallbacks,
    ) -> (instance_id: usize)
        requires
            old(registry)@.dom().len() < usize::MAX,
        ensures
            instance_id == old(registry)@.dom().len() + 1,
            final(registry)@.dom() == old(registry)@.dom().insert(instance_id),
            final(registry)@[instance_id].is_fresh(instance_id, settings, callbacks),
            forall|k: usize|
                old(registry)@.contains_key(k) && k != instance_id ==> final(registry)@[k] == old(
                    registry,
                )@[k],
    {
        let instance_id = registry.len() + 1;
        let capturer = VideoCapturer {
            instance_id,
            handle: NativeHandle::null(),
            settings,
            callbacks,
        };
        registry.insert(instance_id, capturer);
        instance_id
    }

    /// The token under which the capturer is registered.
    pub fn id(&self) -> (id: usize)
        ensures
            id == self.instance_id(),
    {
        self.instance_id
    }

    /// The identity key of the native capturer; zero until the engine
    /// initialised it.
    pub fn inner(&self) -> (k: usize)
        ensures
            k == self.native().key(),
    {
        self.handle.inner()
    }

    /// The dispatch table to install for the capturer: init, destroy, start and
    /// stop are served, the pull of the settings is not, and the capturer's token
    /// travels in the user-data slot.
    pub fn callbacks(&self) -> (table: CapturerTable)
        ensures
            table == (CapturerTable {
                init: true,
                destroy: true,
                start: true,
                stop: true,
                get_capture_settings: false,
                user_data: self.instance_id(),
            }),
    {
        CapturerTable {
            init: true,
            destroy: true,
            start: true,
            stop: true,
            get_capture_settings: false,
            user_data: self.instance_id,
        }
    }

    /// The request that hands a frame to the engine, with its rotation in
    /// degrees. Before the engine has initialised the capturer there is no
    /// handle to hand it to, and the call fails with `NullError`; so it does for
    /// a frame that was given back.
    pub fn provide_frame(&self, rotation: i32, frame: &VideoFrame) -> (r: Result<
        EngineCall,
        OtcError,
    >)
        ensures
            r == (if self.native().live() && frame.native().live() {
                Ok::<EngineCall, OtcError>(
                    (EngineCall::VideoCapturerProvideFrame {
                        capturer: self.native().key(),
                        rotation,
                        frame: frame.native().key(),
                    }),
                )
            } else {
                Err::<EngineCall, OtcError>(OtcError::NullError)
            }),
    {
        if self.handle.is_null() || frame.inner() == 0 {
            return Err(OtcError::NullError);
        }
        Ok(
            EngineCall::VideoCapturerProvideFrame {
                capturer: self.handle.inner(),
                rotation,
                frame: frame.inner(),
            },
        )
    }

    /// The settings as the engine reads them.
    pub fn get_capture_settings(&self) -> (raw: RawCapturerSettings)
        ensures
            raw == raw_settings_of(self.settings()),
    {
        RawCapturerSettings {
            format: self.settings.format.code(),
            width: self.settings.width,
            height: self.settings.height,
            fps: self.settings.fps,
            expected_delay: self.settings.expected_delay,
            mirror_on_local_render: OtcBool::from_bool(self.settings.mirror_on_local_render).raw(),
        }
    }

    /// Serves a request that the engine made with this token in the user-data
    /// slot. A token that names no capturer gets the answer false, and nothing
    /// changes. An init request stores the handle that it supplies. Then the
    /// listener for the request decides; without one the request succeeds.
    pub fn serve(registry: &mut Registry<VideoCapturer>, token: usize, request: CapturerRequest) -> (reply:
        CapturerReply)
        ensures
            !old(registry)@.contains_key(token) ==> reply == CapturerReply::Answer(0)
                && final(registry)@ == old(registry)@,
            old(registry)@.contains_key(token) ==> {
                &&& reply == old(registry)@[token].listeners().reply_to(token, request)
                &&& final(registry)@ == (match request {
                    CapturerRequest::Init(native) => old(registry)@.insert(
                        token,
                        old(registry)@[token].initialised(native),
                    ),
                    _ => old(registry)@,
                })
            },
    {
        let (found, callbacks, settings, instance_id) = match registry.get(token) {
            Some(capturer) => (true, capturer.callbacks, capturer.settings, capturer.instance_id),
            None => (false, VideoCapturerCallbacks::builder().build(), VideoCapturerSettings::default(), 0),
        };
        if !found {
            return CapturerReply::Answer(0);
        }
        match request {
            CapturerRequest::Init(native) => {
                let updated = VideoCapturer {
                    instance_id,
                    handle: NativeHandle::borrow(native),
                    settings,
                    callbacks,
                };
                registry.insert(token, updated);
            },
            _ => {},
        }
        match callbacks.pick(request) {
            Some(listener) => CapturerReply::Ask { listener, capturer: token },
            None => CapturerReply::Answer(1),
        }
    }

    /// The engine's boolean for the result that a listener returned.
    pub fn answer(result: OtcResult) -> (b: i32)
        ensures
            b == (if result is Ok { 1i32 } else { 0i32 }),
    {
        OtcBool::from_result(result).raw()
    }
}

/// The engine's reading of a capturer's settings.
pub open spec fn raw_settings_of(settings: VideoCapturerSettings) -> RawCapturerSettings {
    RawCapturerSettings {
        format: settings.format.code_spec(),
        width: settings.width,
        height: settings.height,
        fps: settings.fps,
        expected_delay: settings.expected_delay,
        mirror_on_local_render: if settings.mirror_on_local_render { 1i32 } else { 0i32 },
    }
}

} // verus!
