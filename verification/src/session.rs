//! Sessions: their listeners, the requests they issue, and the dispatch of
//! their events.

use vstd::prelude::*;
use vstd::std_specs::convert::FromSpecImpl;
use crate::codes;
use crate::connection::{Connection, RawConnection};
use crate::engine::{c_compatible, is_c_compatible, EngineCall};
use crate::enums::{IntoResult, OtcBool, OtcError, OtcResult};
use crate::handle::NativeHandle;
use crate::instances::{Instances, Managed};
use crate::listener::{Dispatch, ListenerId};
use crate::publisher::Publisher;
use crate::stream::{stream_release_calls, stream_video_type_of, RawStream, Stream, StreamVideoType};
use crate::subscriber::Subscriber;

verus! {

/// Error kinds of a session, delivered through its error listener.
#[derive(Clone, Copy, Debug, PartialEq, Eq, Hash)]
pub enum SessionError {
    /// Authorization failure.
    AuthorizationFailure,
    /// The client's country is blocked.
    BlockedCountry,
    /// Connection dropped.
    ConnectionDropped,
    /// Connection failed.
    ConnectionFailed,
    /// Connection limit exceeded.
    ConnectionLimitExceeded,
    /// Connection refused.
    ConnectionRefused,
    /// Connection timed out.
    ConnectionTimedOut,
    /// Force unpublish or invalid stream.
    ForceUnpublishOrInvalidStream,
    /// Illegal state.
    IllegalState,
    /// Internal error.
    InternalError,
    /// Invalid session.
    InvalidSession,
    /// Invalid signal type.
    InvalidSignalType,
    /// Not connected.
    NotConnected,
    /// No messaging server.
    NoMessagingServer,
    /// Null or invalid parameter.
    NullOrInvalidParameter,
    /// Publisher not found.
    PublisherNotFound,
    /// Signal data too long.
    SignalDataTooLong,
    /// Signal type too long.
    SignalTypeTooLong,
    /// State failed.
    StateFailed,
    /// Subscriber not found.
    SubscriberNotFound,
    /// Unexpected answer to a request for session information.
    UnexpectedGetSessionInfoResponse,
    /// A code outside the known set.
    __Unknown,
}

/// The error kind that a code of the engine stands for.
pub open spec fn session_error_of(code: u32) -> SessionError {
    if code == codes::OTC_SESSION_AUTHORIZATION_FAILURE {
        SessionError::AuthorizationFailure
    } else if code == codes::OTC_SESSION_BLOCKED_COUNTRY {
        SessionError::BlockedCountry
    } else if code == codes::OTC_SESSION_CONNECTION_DROPPED {
        SessionError::ConnectionDropped
    } else if code == codes::OTC_SESSION_CONNECTION_FAILED {
        SessionError::ConnectionFailed
    } else if code == codes::OTC_SESSION_CONNECTION_LIMIT_EXCEEDED {
        SessionError::ConnectionLimitExceeded
    } else if code == codes::OTC_SESSION_CONNECTION_REFUSED {
        SessionError::ConnectionRefused
    } else if code == codes::OTC_SESSION_CONNECTION_TIMED_OUT {
        SessionError::ConnectionTimedOut
    } else if code == codes::OTC_SESSION_FORCE_UNPUBLISH_OR_INVALID_STREAM {
        SessionError::ForceUnpublishOrInvalidStream
    } else if code == codes::OTC_SESSION_ILLEGAL_STATE {
        SessionError::IllegalState
    } else if code == codes::OTC_SESSION_INTERNAL_ERROR {
        SessionError::InternalError
    } else if code == codes::OTC_SESSION_INVALID_SESSION {
        SessionError::InvalidSession
    } else if code == codes::OTC_SESSION_INVALID_SIGNAL_TYPE {
        SessionError::InvalidSignalType
    } else if code == codes::OTC_SESSION_NOT_CONNECTED {
        SessionError::NotConnected
    } else if code == codes::OTC_SESSION_NO_MESSAGING_SERVER {
        SessionError::NoMessagingServer
    } else if code == codes::OTC_SESSION_NULL_OR_INVALID_PARAMETER {
        SessionError::NullOrInvalidParameter
    } else if code == codes::OTC_SESSION_PUBLISHER_NOT_FOUND {
        SessionError::PublisherNotFound
    } else if code == codes::OTC_SESSION_SIGNAL_DATA_TOO_LONG {
        SessionError::SignalDataTooLong
    } else if code == codes::OTC_SESSION_SIGNAL_TYPE_TOO_LONG {
        SessionError::SignalTypeTooLong
    } else if code == codes::OTC_SESSION_STATE_FAILED {
        SessionError::StateFailed
    } else if code == codes::OTC_SESSION_SUBSCRIBER_NOT_FOUND {
        SessionError::SubscriberNotFound
    } else if code == codes::OTC_SESSION_UNEXPECTED_GET_SESSION_INFO_REPONSE {
        SessionError::UnexpectedGetSessionInfoResponse
    } else {
        SessionError::__Unknown
    }
}

impl From<u32> for SessionError {
    fn from(code: u32) -> (kind: SessionError) {
        if code == codes::OTC_SESSION_AUTHORIZATION_FAILURE {
            SessionError::AuthorizationFailure
        } else if code == codes::OTC_SESSION_BLOCKED_COUNTRY {
            SessionError::BlockedCountry
        } else if code == codes::OTC_SESSION_CONNECTION_DROPPED {
            SessionError::ConnectionDropped
        } else if code == codes::OTC_SESSION_CONNECTION_FAILED {
            SessionError::ConnectionFailed
        } else if code == codes::OTC_SESSION_CONNECTION_LIMIT_EXCEEDED {
            SessionError::ConnectionLimitExceeded
        } else if code == codes::OTC_SESSION_CONNECTION_REFUSED {
            SessionError::ConnectionRefused
        } else if code == codes::OTC_SESSION_CONNECTION_TIMED_OUT {
            SessionError::ConnectionTimedOut
        } else if code == codes::OTC_SESSION_FORCE_UNPUBLISH_OR_INVALID_STREAM {
            SessionError::ForceUnpublishOrInvalidStream
        } else if code == codes::OTC_SESSION_ILLEGAL_STATE {
            SessionError::IllegalState
        } else if code == codes::OTC_SESSION_INTERNAL_ERROR {
            SessionError::InternalError
        } else if code == codes::OTC_SESSION_INVALID_SESSION {
            SessionError::InvalidSession
        } else if code == codes::OTC_SESSION_INVALID_SIGNAL_TYPE {
            SessionError::InvalidSignalType
        } else if code == codes::OTC_SESSION_NOT_CONNECTED {
            SessionError::NotConnected
        } else if code == codes::OTC_SESSION_NO_MESSAGING_SERVER {
            SessionError::NoMessagingServer
        } else if code == codes::OTC_SESSION_NULL_OR_INVALID_PARAMETER {
            SessionError::NullOrInvalidParameter
        } else if code == codes::OTC_SESSION_PUBLISHER_NOT_FOUND {
            SessionError::PublisherNotFound
        } else if code == codes::OTC_SESSION_SIGNAL_DATA_TOO_LONG {
            SessionError::SignalDataTooLong
        } else if code == codes::OTC_SESSION_SIGNAL_TYPE_TOO_LONG {
            SessionError::SignalTypeTooLong
        } else if code == codes::OTC_SESSION_STATE_FAILED {
            SessionError::StateFailed
        } else if code == codes::OTC_SESSION_SUBSCRIBER_NOT_FOUND {
            SessionError::SubscriberNotFound
        } else if code == codes::OTC_SESSION_UNEXPECTED_GET_SESSION_INFO_REPONSE {
            SessionError::UnexpectedGetSessionInfoResponse
        } else {
            SessionError::__Unknown
        }
    }
}

impl FromSpecImpl<u32> for SessionError {
    open spec fn obeys_from_spec() -> bool {
        true
    }

    open spec fn from_spec(code: u32) -> SessionError {
        session_error_of(code)
    }
}

/// The listeners of a session: at most one for each kind of event. An event whose
/// kind has no listener is ignored.
#[derive(Clone, Copy, Debug, PartialEq, Eq)]
pub struct SessionCallbacks {
    /// The listener for the event: the session connected.
    pub on_connected: Option<ListenerId>,
    /// The listener for the event: the session lost its connection and tries to reconnect.
    pub on_reconnection_started: Option<ListenerId>,
    /// The listener for the event: the session reconnected.
    pub on_reconnected: Option<ListenerId>,
    /// The listener for the event: the session disconnected.
    pub on_disconnected: Option<ListenerId>,
    /// The listener for the event: another client connected to the session.
    pub on_connection_created: Option<ListenerId>,
    /// The listener for the event: another client left the session.
    pub on_connection_dropped: Option<ListenerId>,
    /// The listener for the event: a stream was published in the session.
    pub on_stream_received: Option<ListenerId>,
    /// The listener for the event: a stream left the session.
    pub on_stream_dropped: Option<ListenerId>,
    /// The listener for the event: a stream started or stopped sending audio.
    pub on_stream_has_audio_changed: Option<ListenerId>,
    /// The listener for the event: a stream started or stopped sending video.
    pub on_stream_has_video_changed: Option<ListenerId>,
    /// The listener for the event: the video dimensions of a stream changed.
    pub on_stream_video_dimensions_changed: Option<ListenerId>,
    /// The listener for the event: the kind of video of a stream changed.
    pub on_stream_video_type_changed: Option<ListenerId>,
    /// The listener for the event: a signal arrived.
    pub on_signal_received: Option<ListenerId>,
    /// The listener for the event: an archive of the session started.
    pub on_archive_started: Option<ListenerId>,
    /// The listener for the event: an archive of the session stopped.
    pub on_archive_stopped: Option<ListenerId>,
    /// The listener for the event: the session failed.
    pub on_error: Option<ListenerId>,
}

/// Collects the listeners of a session, one setter for each kind of event.
/// Setting a kind twice keeps the later listener.
#[derive(Clone, Copy, Debug, PartialEq, Eq)]
pub struct SessionCallbacksBuilder {
    on_connected: Option<ListenerId>,
    on_reconnection_started: Option<ListenerId>,
    on_reconnected: Option<ListenerId>,
    on_disconnected: Option<ListenerId>,
    on_connection_created: Option<ListenerId>,
    on_connection_dropped: Option<ListenerId>,
    on_stream_received: Option<ListenerId>,
    on_stream_dropped: Option<ListenerId>,
    on_stream_has_audio_changed: Option<ListenerId>,
    on_stream_has_video_changed: Option<ListenerId>,
    on_stream_video_dimensions_changed: Option<ListenerId>,
    on_stream_video_type_changed: Option<ListenerId>,
    on_signal_received: Option<ListenerId>,
    on_archive_started: Option<ListenerId>,
    on_archive_stopped: Option<ListenerId>,
    on_error: Option<ListenerId>,
}

impl SessionCallbacksBuilder {
    /// The listeners collected so far.
    pub closed spec fn listeners(self) -> SessionCallbacks {
        SessionCallbacks {
            on_connected: self.on_connected,
            on_reconnection_started: self.on_reconnection_started,
            on_reconnected: self.on_reconnected,
            on_disconnected: self.on_disconnected,
            on_connection_created: self.on_connection_created,
            on_connection_dropped: self.on_connection_dropped,
            on_stream_received: self.on_stream_received,
            on_stream_dropped: self.on_stream_dropped,
            on_stream_has_audio_changed: self.on_stream_has_audio_changed,
            on_stream_has_video_changed: self.on_stream_has_video_changed,
            on_stream_video_dimensions_changed: self.on_stream_video_dimensions_changed,
            on_stream_video_type_changed: self.on_stream_video_type_changed,
            on_signal_received: self.on_signal_received,
            on_archive_started: self.on_archive_started,
            on_archive_stopped: self.on_archive_stopped,
            on_error: self.on_error,
        }
    }

    /// Registers the listener for the event: the session connected.
    pub fn on_connected(self, listener: ListenerId) -> (b: Self)
        ensures
            b.listeners() == (SessionCallbacks { on_connected: Some(listener), ..self.listeners() }),
    {
        Self { on_connected: Some(listener), ..self }
    }

    /// Registers the listener for the event: the session lost its connection and tries to reconnect.
    pub fn on_reconnection_started(self, listener: ListenerId) -> (b: Self)
        ensures
            b.listeners() == (SessionCallbacks { on_reconnection_started: Some(listener), ..self.listeners() }),
    {
        Self { on_reconnection_started: Some(listener), ..self }
    }

    /// Registers the listener for the event: the session reconnected.
    pub fn on_reconnected(self, listener: ListenerId) -> (b: Self)
        ensures
            b.listeners() == (SessionCallbacks { on_reconnected: Some(listener), ..self.listeners() }),
    {
        Self { on_reconnected: Some(listener), ..self }
    }

    /// Registers the listener for the event: the session disconnected.
    pub fn on_disconnected(self, listener: ListenerId) -> (b: Self)
        ensures
            b.listeners() == (SessionCallbacks { on_disconnected: Some(listener), ..self.listeners() }),
    {
        Self { on_disconnected: Some(listener), ..self }
    }

    /// Registers the listener for the event: another client connected to the session.
    pub fn on_connection_created(self, listener: ListenerId) -> (b: Self)
        ensures
            b.listeners() == (SessionCallbacks { on_connection_created: Some(listener), ..self.listeners() }),
    {
        Self { on_connection_created: Some(listener), ..self }
    }

    /// Registers the listener for the event: another client left the session.
    pub fn on_connection_dropped(self, listener: ListenerId) -> (b: Self)
        ensures
            b.listeners() == (SessionCallbacks { on_connection_dropped: Some(listener), ..self.listeners() }),
    {
        Self { on_connection_dropped: Some(listener), ..self }
    }

    /// Registers the listener for the event: a stream was published in the session.
    pub fn on_stream_received(self, listener: ListenerId) -> (b: Self)
        ensures
            b.listeners() == (SessionCallbacks { on_stream_received: Some(listener), ..self.listeners() }),
    {
        Self { on_stream_received: Some(listener), ..self }
    }

    /// Registers the listener for the event: a stream left the session.
    pub fn on_stream_dropped(self, listener: ListenerId) -> (b: Self)
        ensures
            b.listeners() == (SessionCallbacks { on_stream_dropped: Some(listener), ..self.listeners() }),
    {
        Self { on_stream_dropped: Some(listener), ..self }
    }

    /// Registers the listener for the event: a stream started or stopped sending audio.
    pub fn on_stream_has_audio_changed(self, listener: ListenerId) -> (b: Self)
        ensures
            b.listeners() == (SessionCallbacks { on_stream_has_audio_changed: Some(listener), ..self.listeners() }),
    {
        Self { on_stream_has_audio_changed: Some(listener), ..self }
    }

    /// Registers the listener for the event: a stream started or stopped sending video.
    pub fn on_stream_has_video_changed(self, listener: ListenerId) -> (b: Self)
        ensures
            b.listeners() == (SessionCallbacks { on_stream_has_video_changed: Some(listener), ..self.listeners() }),
    {
        Self { on_stream_has_video_changed: Some(listener), ..self }
    }

    /// Registers the listener for the event: the video dimensions of a stream changed.
    pub fn on_stream_video_dimensions_changed(self, listener: ListenerId) -> (b: Self)
        ensures
            b.listeners() == (SessionCallbacks { on_stream_video_dimensions_changed: Some(listener), ..self.listeners() }),
    {
        Self { on_stream_video_dimensions_changed: Some(listener), ..self }
    }

    /// Registers the listener for the event: the kind of video of a stream changed.
    pub fn on_stream_video_type_changed(self, listener: ListenerId) -> (b: Self)
        ensures
            b.listeners() == (SessionCallbacks { on_stream_video_type_changed: Some(listener), ..self.listeners() }),
    {
        Self { on_stream_video_type_changed: Some(listener), ..self }
    }

    /// Registers the listener for the event: a signal arrived.
    pub fn on_signal_received(self, listener: ListenerId) -> (b: Self)
        ensures
            b.listeners() == (SessionCallbacks { on_signal_received: Some(listener), ..self.listeners() }),
    {
        Self { on_signal_received: Some(listener), ..self }
    }

    /// Registers the listener for the event: an archive of the session started.
    pub fn on_archive_started(self, listener: ListenerId) -> (b: Self)
        ensures
            b.listeners() == (SessionCallbacks { on_archive_started: Some(listener), ..self.listeners() }),
    {
        Self { on_archive_started: Some(listener), ..self }
    }

    /// Registers the listener for the event: an archive of the session stopped.
    pub fn on_archive_stopped(self, listener: ListenerId) -> (b: Self)
        ensures
            b.listeners() == (SessionCallbacks { on_archive_stopped: Some(listener), ..self.listeners() }),
    {
        Self { on_archive_stopped: Some(listener), ..self }
    }

    /// Registers the listener for the event: the session failed.
    pub fn on_error(self, listener: ListenerId) -> (b: Self)
        ensures
            b.listeners() == (SessionCallbacks { on_error: Some(listener), ..self.listeners() }),
    {
        Self { on_error: Some(listener), ..self }
    }

    /// The finished listener set.
    pub fn build(self) -> (callbacks: SessionCallbacks)
        ensures
            callbacks == self.listeners(),
    {
        SessionCallbacks {
            on_connected: self.on_connected,
            on_reconnection_started: self.on_reconnection_started,
            on_reconnected: self.on_reconnected,
            on_disconnected: self.on_disconnected,
            on_connection_created: self.on_connection_created,
            on_connection_dropped: self.on_connection_dropped,
            on_stream_received: self.on_stream_received,
            on_stream_dropped: self.on_stream_dropped,
            on_stream_has_audio_changed: self.on_stream_has_audio_changed,
            on_stream_has_video_changed: self.on_stream_has_video_changed,
            on_stream_video_dimensions_changed: self.on_stream_video_dimensions_changed,
            on_stream_video_type_changed: self.on_stream_video_type_changed,
            on_signal_received: self.on_signal_received,
            on_archive_started: self.on_archive_started,
            on_archive_stopped: self.on_archive_stopped,
            on_error: self.on_error,
        }
    }
}

impl SessionCallbacks {
    /// A listener set without any listener.
    pub open spec fn none() -> SessionCallbacks {
        SessionCallbacks {
            on_connected: None,
            on_reconnection_started: None,
            on_reconnected: None,
            on_disconnected: None,
            on_connection_created: None,
            on_connection_dropped: None,
            on_stream_received: None,
            on_stream_dropped: None,
            on_stream_has_audio_changed: None,
            on_stream_has_video_changed: None,
            on_stream_video_dimensions_changed: None,
            on_stream_video_type_changed: None,
            on_signal_received: None,
            on_archive_started: None,
            on_archive_stopped: None,
            on_error: None,
        }
    }

    /// Starts a listener set with no listener in it.
    pub fn builder() -> (b: SessionCallbacksBuilder)
        ensures
            b.listeners() == SessionCallbacks::none(),
    {
        SessionCallbacksBuilder {
            on_connected: None,
            on_reconnection_started: None,
            on_reconnected: None,
            on_disconnected: None,
            on_connection_created: None,
            on_connection_dropped: None,
            on_stream_received: None,
            on_stream_dropped: None,
            on_stream_has_audio_changed: None,
            on_stream_has_video_changed: None,
            on_stream_video_dimensions_changed: None,
            on_stream_video_type_changed: None,
            on_signal_received: None,
            on_archive_started: None,
            on_archive_stopped: None,
            on_error: None,
        }
    }
}
/// An event of a session as the engine's callback delivered it: native copies
/// as the host read them, flags and codes in the engine's encoding, and each
/// text absent where the engine passed a null pointer.
#[derive(Debug)]
pub enum RawSessionEvent {
    Connected,
    ReconnectionStarted,
    Reconnected,
    Disconnected,
    ConnectionCreated(RawConnection),
    ConnectionDropped(RawConnection),
    StreamReceived(RawStream),
    StreamDropped(RawStream),
    StreamHasAudioChanged(RawStream, i32),
    StreamHasVideoChanged(RawStream, i32),
    StreamVideoDimensionsChanged(RawStream, i32, i32),
    StreamVideoTypeChanged(RawStream, u32),
    SignalReceived(Option<String>, Option<String>, RawConnection),
    ArchiveStarted(Option<String>, Option<String>),
    ArchiveStopped(Option<String>),
    Error(Option<String>, u32),
}

/// An event of a session in safe values, which the listener owns.
#[derive(Debug)]
pub enum SessionEvent {
    Connected,
    ReconnectionStarted,
    Reconnected,
    Disconnected,
    ConnectionCreated(Connection),
    ConnectionDropped(Connection),
    StreamReceived(Stream),
    StreamDropped(Stream),
    StreamHasAudioChanged(Stream, bool),
    StreamHasVideoChanged(Stream, bool),
    StreamVideoDimensionsChanged(Stream, i32, i32),
    StreamVideoTypeChanged(Stream, StreamVideoType),
    SignalReceived(String, String, Connection),
    ArchiveStarted(String, String),
    ArchiveStopped(String),
    Error(String, SessionError),
}

/// The delete request for a copied connection, if there is a copy.
pub open spec fn connection_release_calls(connection: usize) -> Seq<EngineCall> {
    if connection != 0 {
        seq![(EngineCall::ConnectionDelete { connection })]
    } else {
        Seq::<EngineCall>::empty()
    }
}

impl RawSessionEvent {
    /// Whether the event can be handed to a listener: every pointer that it
    /// came with was there.
    pub open spec fn deliverable(self) -> bool {
        match self {
            RawSessionEvent::ConnectionCreated(c) => c.addr != 0,
            RawSessionEvent::ConnectionDropped(c) => c.addr != 0,
            RawSessionEvent::StreamReceived(s) => s.addr != 0,
            RawSessionEvent::StreamDropped(s) => s.addr != 0,
            RawSessionEvent::StreamHasAudioChanged(s, _) => s.addr != 0,
            RawSessionEvent::StreamHasVideoChanged(s, _) => s.addr != 0,
            RawSessionEvent::StreamVideoDimensionsChanged(s, _, _) => s.addr != 0,
            RawSessionEvent::StreamVideoTypeChanged(s, _) => s.addr != 0,
            RawSessionEvent::SignalReceived(kind, signal, c) => kind is Some && signal is Some
                && c.addr != 0,
            RawSessionEvent::ArchiveStarted(id, name) => id is Some && name is Some,
            RawSessionEvent::ArchiveStopped(id) => id is Some,
            RawSessionEvent::Error(message, _) => message is Some,
            _ => true,
        }
    }

    /// The requests that give back the native copies that the event came with.
    pub open spec fn discards(self) -> Seq<EngineCall> {
        match self {
            RawSessionEvent::ConnectionCreated(c) => connection_release_calls(c.addr),
            RawSessionEvent::ConnectionDropped(c) => connection_release_calls(c.addr),
            RawSessionEvent::StreamReceived(s) => stream_release_calls(s.connection.addr, s.addr),
            RawSessionEvent::StreamDropped(s) => stream_release_calls(s.connection.addr, s.addr),
            RawSessionEvent::StreamHasAudioChanged(s, _) => stream_release_calls(
                s.connection.addr,
                s.addr,
            ),
            RawSessionEvent::StreamHasVideoChanged(s, _) => stream_release_calls(
                s.connection.addr,
                s.addr,
            ),
            RawSessionEvent::StreamVideoDimensionsChanged(s, _, _) => stream_release_calls(
                s.connection.addr,
                s.addr,
            ),
            RawSessionEvent::StreamVideoTypeChanged(s, _) => stream_release_calls(
                s.connection.addr,
                s.addr,
            ),
            RawSessionEvent::SignalReceived(_, _, c) => connection_release_calls(c.addr),
            _ => Seq::<EngineCall>::empty(),
        }
    }

    /// The safe event says what the raw event said: the same kind, each native
    /// copy as a snapshot that owns it, each flag and code decoded.
    pub open spec fn converts_to(self, event: SessionEvent) -> bool {
        match (self, event) {
            (RawSessionEvent::Connected, SessionEvent::Connected) => true,
            (RawSessionEvent::ReconnectionStarted, SessionEvent::ReconnectionStarted) => true,
            (RawSessionEvent::Reconnected, SessionEvent::Reconnected) => true,
            (RawSessionEvent::Disconnected, SessionEvent::Disconnected) => true,
            (RawSessionEvent::ConnectionCreated(raw), SessionEvent::ConnectionCreated(c)) => c.mirrors(
                raw,
            ),
            (RawSessionEvent::ConnectionDropped(raw), SessionEvent::ConnectionDropped(c)) => c.mirrors(
                raw,
            ),
            (RawSessionEvent::StreamReceived(raw), SessionEvent::StreamReceived(s)) => s.mirrors(raw),
            (RawSessionEvent::StreamDropped(raw), SessionEvent::StreamDropped(s)) => s.mirrors(raw),
            (
                RawSessionEvent::StreamHasAudioChanged(raw, flag),
                SessionEvent::StreamHasAudioChanged(s, has_audio),
            ) => s.mirrors(raw) && has_audio == (flag != 0),
            (
                RawSessionEvent::StreamHasVideoChanged(raw, flag),
                SessionEvent::StreamHasVideoChanged(s, has_video),
            ) => s.mirrors(raw) && has_video == (flag != 0),
            (
                RawSessionEvent::StreamVideoDimensionsChanged(raw, w, h),
                SessionEvent::StreamVideoDimensionsChanged(s, width, height),
            ) => s.mirrors(raw) && width == w && height == h,
            (
                RawSessionEvent::StreamVideoTypeChanged(raw, code),
                SessionEvent::StreamVideoTypeChanged(s, kind),
            ) => s.mirrors(raw) && kind == stream_video_type_of(code),
            (
                RawSessionEvent::SignalReceived(raw_kind, raw_signal, raw),
                SessionEvent::SignalReceived(kind, signal, c),
            ) => raw_kind == Some(kind) && raw_signal == Some(signal) && c.mirrors(raw),
            (RawSessionEvent::ArchiveStarted(raw_id, raw_name), SessionEvent::ArchiveStarted(id, name)) =>
                raw_id == Some(id) && raw_name == Some(name),
            (RawSessionEvent::ArchiveStopped(raw_id), SessionEvent::ArchiveStopped(id)) => raw_id
                == Some(id),
            (RawSessionEvent::Error(raw_message, code), SessionEvent::Error(message, kind)) =>
                raw_message == Some(message) && kind == session_error_of(code),
            _ => false,
        }
    }

    /// Gives back the native copies of a raw event that finds no object.
    pub fn discard(self) -> (calls: Vec<EngineCall>)
        ensures
            calls@ == self.discards(),
    {
        match self {
            RawSessionEvent::ConnectionCreated(raw) => {
                let mut c = Connection::from_raw(raw);
                option_to_calls(c.release())
            },
            RawSessionEvent::ConnectionDropped(raw) => {
                let mut c = Connection::from_raw(raw);
                option_to_calls(c.release())
            },
            RawSessionEvent::StreamReceived(raw) => {
                let mut s = Stream::from_raw(raw);
                s.release()
            },
            RawSessionEvent::StreamDropped(raw) => {
                let mut s = Stream::from_raw(raw);
                s.release()
            },
            RawSessionEvent::StreamHasAudioChanged(raw, _) => {
                let mut s = Stream::from_raw(raw);
                s.release()
            },
            RawSessionEvent::StreamHasVideoChanged(raw, _) => {
                let mut s = Stream::from_raw(raw);
                s.release()
            },
            RawSessionEvent::StreamVideoDimensionsChanged(raw, _, _) => {
                let mut s = Stream::from_raw(raw);
                s.release()
            },
            RawSessionEvent::StreamVideoTypeChanged(raw, _) => {
                let mut s = Stream::from_raw(raw);
                s.release()
            },
            RawSessionEvent::SignalReceived(_, _, raw) => {
                let mut c = Connection::from_raw(raw);
                option_to_calls(c.release())
            },
            _ => Vec::new(),
        }
    }

    /// Converts the event for a listener. An event that came with a null pointer
    /// cannot be delivered: it yields the requests that give back whatever native
    /// copies it did come with.
    pub fn into_event(self) -> (r: Result<SessionEvent, Vec<EngineCall>>)
        ensures
            self.deliverable() ==> r is Ok && self.converts_to(r->Ok_0),
            !self.deliverable() ==> r is Err && r->Err_0@ == self.discards(),
    {
        match self {
            RawSessionEvent::Connected => Ok(SessionEvent::Connected),
            RawSessionEvent::ReconnectionStarted => Ok(SessionEvent::ReconnectionStarted),
            RawSessionEvent::Reconnected => Ok(SessionEvent::Reconnected),
            RawSessionEvent::Disconnected => Ok(SessionEvent::Disconnected),
            RawSessionEvent::ConnectionCreated(raw) => match owned_connection(raw) {
                Ok(c) => Ok(SessionEvent::ConnectionCreated(c)),
                Err(calls) => Err(calls),
            },
            RawSessionEvent::ConnectionDropped(raw) => match owned_connection(raw) {
                Ok(c) => Ok(SessionEvent::ConnectionDropped(c)),
                Err(calls) => Err(calls),
            },
            RawSessionEvent::StreamReceived(raw) => match owned_stream(raw) {
                Ok(s) => Ok(SessionEvent::StreamReceived(s)),
                Err(calls) => Err(calls),
            },
            RawSessionEvent::StreamDropped(raw) => match owned_stream(raw) {
                Ok(s) => Ok(SessionEvent::StreamDropped(s)),
                Err(calls) => Err(calls),
            },
            RawSessionEvent::StreamHasAudioChanged(raw, flag) => match owned_stream(raw) {
                Ok(s) => Ok(SessionEvent::StreamHasAudioChanged(s, OtcBool(flag).value())),
                Err(calls) => Err(calls),
            },
            RawSessionEvent::StreamHasVideoChanged(raw, flag) => match owned_stream(raw) {
                Ok(s) => Ok(SessionEvent::StreamHasVideoChanged(s, OtcBool(flag).value())),
                Err(calls) => Err(calls),
            },
            RawSessionEvent::StreamVideoDimensionsChanged(raw, w, h) => match owned_stream(raw) {
                Ok(s) => Ok(SessionEvent::StreamVideoDimensionsChanged(s, w, h)),
                Err(calls) => Err(calls),
            },
            RawSessionEvent::StreamVideoTypeChanged(raw, code) => match owned_stream(raw) {
                Ok(s) => Ok(SessionEvent::StreamVideoTypeChanged(s, StreamVideoType::from(code))),
                Err(calls) => Err(calls),
            },
            RawSessionEvent::SignalReceived(kind, signal, raw) => match (kind, signal) {
                (Some(kind), Some(signal)) => match owned_connection(raw) {
                    Ok(c) => Ok(SessionEvent::SignalReceived(kind, signal, c)),
                    Err(calls) => Err(calls),
                },
                _ => {
                    let mut c = Connection::from_raw(raw);
                    Err(option_to_calls(c.release()))
                },
            },
            RawSessionEvent::ArchiveStarted(id, name) => match (id, name) {
                (Some(id), Some(name)) => Ok(SessionEvent::ArchiveStarted(id, name)),
                _ => Err(Vec::new()),
            },
            RawSessionEvent::ArchiveStopped(id) => match id {
                Some(id) => Ok(SessionEvent::ArchiveStopped(id)),
                None => Err(Vec::new()),
            },
            RawSessionEvent::Error(message, code) => match message {
                Some(message) => Ok(SessionEvent::Error(message, SessionError::from(code))),
                None => Err(Vec::new()),
            },
        }
    }
}

/// A request, if there is one, as a list.
pub(crate) fn option_to_calls(call: Option<EngineCall>) -> (calls: Vec<EngineCall>)
    ensures
        calls@ == (match call {
            Some(c) => seq![c],
            None => Seq::<EngineCall>::empty(),
        }),
{
    let mut calls: Vec<EngineCall> = Vec::new();
    match call {
        Some(c) => {
            calls.push(c);
        },
        None => {},
    }
    calls
}

/// The snapshot of a copied connection, or the clean-up after a null one.
pub(crate) fn owned_connection(raw: RawConnection) -> (r: Result<Connection, Vec<EngineCall>>)
    ensures
        raw.addr != 0 ==> r is Ok && r->Ok_0.mirrors(raw),
        raw.addr == 0 ==> r is Err && r->Err_0@ == Seq::<EngineCall>::empty(),
{
    if raw.addr == 0 {
        Err(Vec::new())
    } else {
        Ok(Connection::from_raw(raw))
    }
}

/// The snapshot of a copied stream, or the clean-up after a null one.
pub(crate) fn owned_stream(raw: RawStream) -> (r: Result<Stream, Vec<EngineCall>>)
    ensures
        raw.addr != 0 ==> r is Ok && r->Ok_0.mirrors(raw),
        raw.addr == 0 ==> r is Err && r->Err_0@ == stream_release_calls(raw.connection.addr, 0),
{
    let null = raw.addr == 0;
    let mut stream = Stream::from_raw(raw);
    if null {
        Err(stream.release())
    } else {
        Ok(stream)
    }
}

impl SessionEvent {
    /// The requests that give back the native copies that the event owns.
    pub open spec fn discards(self) -> Seq<EngineCall> {
        match self {
            SessionEvent::ConnectionCreated(c) => connection_release_calls(c.native().key()),
            SessionEvent::ConnectionDropped(c) => connection_release_calls(c.native().key()),
            SessionEvent::StreamReceived(s) => stream_release_calls(
                s.connection().native().key(),
                s.native().key(),
            ),
            SessionEvent::StreamDropped(s) => stream_release_calls(
                s.connection().native().key(),
                s.native().key(),
            ),
            SessionEvent::StreamHasAudioChanged(s, _) => stream_release_calls(
                s.connection().native().key(),
                s.native().key(),
            ),
            SessionEvent::StreamHasVideoChanged(s, _) => stream_release_calls(
                s.connection().native().key(),
                s.native().key(),
            ),
            SessionEvent::StreamVideoDimensionsChanged(s, _, _) => stream_release_calls(
                s.connection().native().key(),
                s.native().key(),
            ),
            SessionEvent::StreamVideoTypeChanged(s, _) => stream_release_calls(
                s.connection().native().key(),
                s.native().key(),
            ),
            SessionEvent::SignalReceived(_, _, c) => connection_release_calls(c.native().key()),
            _ => Seq::<EngineCall>::empty(),
        }
    }

    /// Gives back the native copies of an event that nobody will receive.
    pub fn discard(self) -> (calls: Vec<EngineCall>)
        ensures
            calls@ == self.discards(),
    {
        match self {
            SessionEvent::ConnectionCreated(c) => {
                let mut c = c;
                option_to_calls(c.release())
            },
            SessionEvent::ConnectionDropped(c) => {
                let mut c = c;
                option_to_calls(c.release())
            },
            SessionEvent::StreamReceived(s) => {
                let mut s = s;
                s.release()
            },
            SessionEvent::StreamDropped(s) => {
                let mut s = s;
                s.release()
            },
            SessionEvent::StreamHasAudioChanged(s, _) => {
                let mut s = s;
                s.release()
            },
            SessionEvent::StreamHasVideoChanged(s, _) => {
                let mut s = s;
                s.release()
            },
            SessionEvent::StreamVideoDimensionsChanged(s, _, _) => {
                let mut s = s;
                s.release()
            },
            SessionEvent::StreamVideoTypeChanged(s, _) => {
                let mut s = s;
                s.release()
            },
            SessionEvent::SignalReceived(_, _, c) => {
                let mut c = c;
                option_to_calls(c.release())
            },
            _ => Vec::new(),
        }
    }
}

impl SessionCallbacks {
    /// The listener that an event goes to, if its kind has one.
    pub open spec fn listener_of(self, event: SessionEvent) -> Option<ListenerId> {
        match event {
            SessionEvent::Connected => self.on_connected,
            SessionEvent::ReconnectionStarted => self.on_reconnection_started,
            SessionEvent::Reconnected => self.on_reconnected,
            SessionEvent::Disconnected => self.on_disconnected,
            SessionEvent::ConnectionCreated(_) => self.on_connection_created,
            SessionEvent::ConnectionDropped(_) => self.on_connection_dropped,
            SessionEvent::StreamReceived(_) => self.on_stream_received,
            SessionEvent::StreamDropped(_) => self.on_stream_dropped,
            SessionEvent::StreamHasAudioChanged(_, _) => self.on_stream_has_audio_changed,
            SessionEvent::StreamHasVideoChanged(_, _) => self.on_stream_has_video_changed,
            SessionEvent::StreamVideoDimensionsChanged(_, _, _) =>
                self.on_stream_video_dimensions_changed,
            SessionEvent::StreamVideoTypeChanged(_, _) => self.on_stream_video_type_changed,
            SessionEvent::SignalReceived(_, _, _) => self.on_signal_received,
            SessionEvent::ArchiveStarted(_, _) => self.on_archive_started,
            SessionEvent::ArchiveStopped(_) => self.on_archive_stopped,
            SessionEvent::Error(_, _) => self.on_error,
        }
    }

    fn pick(&self, event: &SessionEvent) -> (listener: Option<ListenerId>)
        ensures
            listener == self.listener_of(*event),
    {
        match event {
            SessionEvent::Connected => self.on_connected,
            SessionEvent::ReconnectionStarted => self.on_reconnection_started,
            SessionEvent::Reconnected => self.on_reconnected,
            SessionEvent::Disconnected => self.on_disconnected,
            SessionEvent::ConnectionCreated(_) => self.on_connection_created,
            SessionEvent::ConnectionDropped(_) => self.on_connection_dropped,
            SessionEvent::StreamReceived(_) => self.on_stream_received,
            SessionEvent::StreamDropped(_) => self.on_stream_dropped,
            SessionEvent::StreamHasAudioChanged(_, _) => self.on_stream_has_audio_changed,
            SessionEvent::StreamHasVideoChanged(_, _) => self.on_stream_has_video_changed,
            SessionEvent::StreamVideoDimensionsChanged(_, _, _) =>
                self.on_stream_video_dimensions_changed,
            SessionEvent::StreamVideoTypeChanged(_, _) => self.on_stream_video_type_changed,
            SessionEvent::SignalReceived(_, _, _) => self.on_signal_received,
            SessionEvent::ArchiveStarted(_, _) => self.on_archive_started,
            SessionEvent::ArchiveStopped(_) => self.on_archive_stopped,
            SessionEvent::Error(_, _) => self.on_error,
        }
    }

    /// What becomes of an event: it reaches the listener for its kind, or,
    /// without such a listener, it is ignored and the native copies that it owns
    /// are given back.
    pub open spec fn outcome(self, target: usize, event: SessionEvent, d: Dispatch<SessionEvent>) -> bool {
        match self.listener_of(event) {
            Some(listener) => d.delivers(listener, target, event),
            None => d.drops(event.discards()),
        }
    }

    /// Hands an event of the session with this identity to the listener for its
    /// kind.
    pub fn deliver(&self, session: usize, event: SessionEvent) -> (d: Dispatch<SessionEvent>)
        ensures
            self.outcome(session, event, d),
    {
        match self.pick(&event) {
            Some(listener) => Dispatch::deliver(listener, session, event),
            None => Dispatch::dropped(event.discard()),
        }
    }

    /// Reports that a stream started or stopped sending audio.
    pub fn on_stream_has_audio_changed(&self, session: usize, stream: Stream, has_audio: bool) -> (d:
        Dispatch<SessionEvent>)
        ensures
            match self.on_stream_has_audio_changed {
                Some(listener) => d.delivers(
                    listener,
                    session,
                    SessionEvent::StreamHasAudioChanged(stream, has_audio),
                ),
                None => d.drops(SessionEvent::StreamHasAudioChanged(stream, has_audio).discards()),
            },
    {
        self.deliver(session, SessionEvent::StreamHasAudioChanged(stream, has_audio))
    }

    /// Reports that a stream started or stopped sending video.
    pub fn on_stream_has_video_changed(&self, session: usize, stream: Stream, has_video: bool) -> (d:
        Dispatch<SessionEvent>)
        ensures
            match self.on_stream_has_video_changed {
                Some(listener) => d.delivers(
                    listener,
                    session,
                    SessionEvent::StreamHasVideoChanged(stream, has_video),
                ),
                None => d.drops(SessionEvent::StreamHasVideoChanged(stream, has_video).discards()),
            },
    {
        self.deliver(session, SessionEvent::StreamHasVideoChanged(stream, has_video))
    }

    /// Reports a signal and the connection that sent it.
    pub fn on_signal_received(
        &self,
        session: usize,
        type_: String,
        signal: String,
        connection: Connection,
    ) -> (d: Dispatch<SessionEvent>)
        ensures
            match self.on_signal_received {
                Some(listener) => d.delivers(
                    listener,
                    session,
                    SessionEvent::SignalReceived(type_, signal, connection),
                ),
                None => d.drops(connection_release_calls(connection.native().key())),
            },
    {
        self.deliver(session, SessionEvent::SignalReceived(type_, signal, connection))
    }

    /// Reports that an archive of the session started.
    pub fn on_archive_started(&self, session: usize, archive_id: String, name: String) -> (d:
        Dispatch<SessionEvent>)
        ensures
            match self.on_archive_started {
                Some(listener) => d.delivers(
                    listener,
                    session,
                    SessionEvent::ArchiveStarted(archive_id, name),
                ),
                None => d.drops(Seq::<EngineCall>::empty()),
            },
    {
        self.deliver(session, SessionEvent::ArchiveStarted(archive_id, name))
    }

    /// Reports that an archive of the session stopped.
    pub fn on_archive_stopped(&self, session: usize, archive_id: String) -> (d: Dispatch<
        SessionEvent,
    >)
        ensures
            match self.on_archive_stopped {
                Some(listener) => d.delivers(listener, session, SessionEvent::ArchiveStopped(archive_id)),
                None => d.drops(Seq::<EngineCall>::empty()),
            },
    {
        self.deliver(session, SessionEvent::ArchiveStopped(archive_id))
    }

    /// Reports a failure of the session, with the engine's description of it.
    pub fn on_error(&self, session: usize, error_string: String, error: SessionError) -> (d:
        Dispatch<SessionEvent>)
        ensures
            match self.on_error {
                Some(listener) => d.delivers(
                    listener,
                    session,
                    SessionEvent::Error(error_string, error),
                ),
                None => d.drops(Seq::<EngineCall>::empty()),
            },
    {
        self.deliver(session, SessionEvent::Error(error_string, error))
    }
}

/// Where a session stands with its room, as far as the engine has reported.
#[derive(Clone, Copy, Debug, PartialEq, Eq)]
pub enum SessionState {
    /// Not connected: the state of a new session, and of one that the engine
    /// reported as disconnected.
    Disconnected,
    /// The engine accepted a request to connect and has not reported on it yet.
    Connecting,
    Connected,
    /// The connection was lost and the engine tries to restore it.
    Reconnecting,
}

/// The state after the engine accepted or refused a request to connect: an
/// accepted request sets a disconnected session connecting, and changes no
/// other.
pub open spec fn state_after_request(state: SessionState, accepted: bool) -> SessionState {
    if accepted && state == SessionState::Disconnected {
        SessionState::Connecting
    } else {
        state
    }
}

/// The state after an event: the four events that report on the connection
/// decide it, whatever the state was, and no other event changes it.
pub open spec fn state_after_event(state: SessionState, event: RawSessionEvent) -> SessionState {
    match event {
        RawSessionEvent::Connected => SessionState::Connected,
        RawSessionEvent::ReconnectionStarted => SessionState::Reconnecting,
        RawSessionEvent::Reconnected => SessionState::Connected,
        RawSessionEvent::Disconnected => SessionState::Disconnected,
        _ => state,
    }
}

/// A connection to a conferencing room.
#[derive(Debug)]
pub struct Session {
    handle: NativeHandle,
    callbacks: SessionCallbacks,
    state: SessionState,
}

/// The request that gives a session back.
pub open spec fn session_retire_calls(key: usize) -> Seq<EngineCall> {
    seq![(EngineCall::SessionDelete { session: key })]
}

/// Which argument, if any, keeps a session from being created.
pub open spec fn session_argument_error(api_key: &str, session_id: &str) -> Option<OtcError> {
    if !c_compatible(api_key) {
        Some(OtcError::InvalidParam("api_key"))
    } else if !c_compatible(session_id) {
        Some(OtcError::InvalidParam("session_id"))
    } else {
        None
    }
}

impl Managed for Session {
    closed spec fn native(&self) -> NativeHandle {
        self.handle
    }

    open spec fn attached(&self) -> usize {
        0
    }

    open spec fn retire_calls(key: usize, attached: usize) -> Seq<EngineCall> {
        session_retire_calls(key)
    }

    closed spec fn retired(self) -> Self {
        Session { handle: NativeHandle::null_spec(), state: SessionState::Disconnected, ..self }
    }

    closed spec fn adopted(self, native: usize) -> Self {
        Session { handle: NativeHandle::wrap_spec(native), ..self }
    }

    fn handle(&self) -> (h: &NativeHandle) {
        &self.handle
    }

    fn adopt(&mut self, native: usize) {
        self.handle = NativeHandle::wrap(native);
    }

    fn retire(&mut self) -> (calls: Vec<EngineCall>) {
        let addr = self.handle.inner();
        let mut calls: Vec<EngineCall> = Vec::new();
        if addr != 0 {
            calls.push(EngineCall::SessionDelete { session: addr });
        }
        self.handle = NativeHandle::null();
        self.state = SessionState::Disconnected;
        calls
    }
}

impl Session {
    /// The listeners of the session.
    pub closed spec fn listeners(self) -> SessionCallbacks {
        self.callbacks
    }

    /// Where the session stands with its room.
    pub closed spec fn state(self) -> SessionState {
        self.state
    }

    /// A session as it is right after creation: disconnected.
    pub open spec fn is_fresh(self, native: usize, callbacks: SessionCallbacks) -> bool {
        &&& self.native().key() == native
        &&& self.native().owned()
        &&& self.listeners() == callbacks
        &&& self.state() == SessionState::Disconnected
    }

    fn check_arguments(api_key: &str, session_id: &str) -> (r: Result<(), OtcError>)
        ensures
            r == (match session_argument_error(api_key, session_id) {
                Some(e) => Err::<(), OtcError>(e),
                None => Ok::<(), OtcError>(()),
            }),
    {
        if !is_c_compatible(api_key) {
            Err(OtcError::InvalidParam("api_key"))
        } else if !is_c_compatible(session_id) {
            Err(OtcError::InvalidParam("session_id"))
        } else {
            Ok(())
        }
    }

    /// The request that creates a session for an API key and a session
    /// identifier. A text that cannot be a C string is refused with
    /// `InvalidParam`, the API key first.
    pub fn creation_call(api_key: &str, session_id: &str) -> (r: Result<EngineCall, OtcError>)
        ensures
            match session_argument_error(api_key, session_id) {
                Some(e) => r == Err::<EngineCall, OtcError>(e),
                None => r matches Ok(EngineCall::SessionNew { api_key: k, session_id: s }) && k@
                    == api_key@ && s@ == session_id@,
            },
    {
        match Session::check_arguments(api_key, session_id) {
            Ok(()) => Ok(
                EngineCall::SessionNew {
                    api_key: api_key.to_owned(),
                    session_id: session_id.to_owned(),
                },
            ),
            Err(e) => Err(e),
        }
    }

    /// Puts the session that the engine created into the pool, registered under
    /// its handle, and returns its token. The arguments are checked as for the
    /// request. If the engine created nothing the call fails with `NullError`.
    /// A failed call leaves the pool as it was. Otherwise the session is
    /// registered, whatever the engine's handle is: no other identity is added
    /// or removed, and a stale object that was still registered under this
    /// identity is retired.
    pub fn new(
        pool: &mut Instances<Session>,
        api_key: &str,
        session_id: &str,
        callbacks: SessionCallbacks,
        native: usize,
    ) -> (r: Result<usize, OtcError>)
        requires
            old(pool).wf(),
        ensures
            final(pool).wf(),
            r is Err ==> *final(pool) == *old(pool),
            match session_argument_error(api_key, session_id) {
                Some(e) => r == Err::<usize, OtcError>(e),
                None => if native == 0 {
                    r == Err::<usize, OtcError>(OtcError::NullError)
                } else {
                    &&& r == Ok::<usize, OtcError>(old(pool).count() as usize)
                    &&& final(pool).count() == old(pool).count() + 1
                    &&& final(pool).object(old(pool).count() as int).is_fresh(native, callbacks)
                    &&& final(pool).owners(old(pool).count() as int) == 1
                    &&& final(pool).registers(*old(pool), native, old(pool).count() as usize)
                },
            },
    {
        match Session::check_arguments(api_key, session_id) {
            Ok(()) => {},
            Err(e) => {
                return Err(e);
            },
        }
        match NativeHandle::adopt(native) {
            Ok(handle) => Ok(
                pool.add(Session { handle, callbacks, state: SessionState::Disconnected }),
            ),
            Err(e) => Err(e),
        }
    }

    /// The identity key of the session; zero once it was given back.
    pub fn inner(&self) -> (k: usize)
        ensures
            k == self.native().key(),
    {
        self.handle.inner()
    }

    /// The listeners of the session.
    pub fn callbacks(&self) -> (c: SessionCallbacks)
        ensures
            c == self.listeners(),
    {
        self.callbacks
    }

    /// Where the session stands with its room.
    pub fn get_state(&self) -> (state: SessionState)
        ensures
            state == self.state(),
    {
        self.state
    }

    /// Takes in the engine's answer to a request to connect. The answer is
    /// returned as a typed result. An accepted request sets a live, disconnected
    /// session connecting; whether it connects is reported by an event.
    pub fn requested(pool: &mut Instances<Session>, token: usize, status: i32) -> (r: OtcResult)
        requires
            old(pool).wf(),
        ensures
            final(pool).wf(),
            r == status.as_result(),
            final(pool).count() == old(pool).count(),
            final(pool).routes() == old(pool).routes(),
            final(pool).order() == old(pool).order(),
            forall|t: int|
                0 <= t < old(pool).count() ==> final(pool).owners(t) == old(pool).owners(t)
                    && final(pool).object(t).native() == old(pool).object(t).native()
                    && final(pool).object(t).listeners() == old(pool).object(t).listeners(),
            forall|t: int|
                0 <= t < old(pool).count() && t != token ==> final(pool).object(t) == old(
                    pool,
                ).object(t),
            old(pool).live(token as int) ==> final(pool).object(token as int).state()
                == state_after_request(old(pool).object(token as int).state(), r is Ok),
            !old(pool).live(token as int) ==> *final(pool) == *old(pool),
    {
        let r = status.into_result();
        proof {
            pool.lemma_unfold();
        }
        if r.is_ok() && token < pool.slots.len() && !pool.slots[token].object.handle.is_null() {
            let ghost before = *pool;
            match pool.slots[token].object.state {
                SessionState::Disconnected => {
                    pool.slots[token].object.state = SessionState::Connecting;
                },
                _ => {},
            }
            proof {
                pool.lemma_same_handles(before);
                pool.lemma_unfold();
            }
        }
        r
    }

    /// The request that connects the client to the session with a token. A
    /// returned request means that the arguments were in order, not that the
    /// client is connected: that is reported by an event. A session without a
    /// live handle fails with `NullError`; a token that cannot be a C string,
    /// with `InvalidParam`.
    pub fn connect(&self, token: &str) -> (r: Result<EngineCall, OtcError>)
        ensures
            if !self.native().live() {
                r == Err::<EngineCall, OtcError>(OtcError::NullError)
            } else if !c_compatible(token) {
                r == Err::<EngineCall, OtcError>(OtcError::InvalidParam("token"))
            } else {
                r matches Ok(EngineCall::SessionConnect { session, token: t }) && session
                    == self.native().key() && t@ == token@
            },
    {
        if self.handle.is_null() {
            return Err(OtcError::NullError);
        }
        if !is_c_compatible(token) {
            return Err(OtcError::InvalidParam("token"));
        }
        Ok(EngineCall::SessionConnect { session: self.handle.inner(), token: token.to_owned() })
    }

    /// The request that disconnects the client from the session.
    pub fn disconnect(&self) -> (r: Result<EngineCall, OtcError>)
        ensures
            r == (if self.native().live() {
                Ok::<EngineCall, OtcError>(
                    (EngineCall::SessionDisconnect { session: self.native().key() }),
                )
            } else {
                Err::<EngineCall, OtcError>(OtcError::NullError)
            }),
    {
        match self.handle.checked() {
            Ok(key) => Ok(EngineCall::SessionDisconnect { session: key }),
            Err(e) => Err(e),
        }
    }

    /// The request that starts publishing a publisher's stream to the session.
    /// Both handles must be live; the session need not be connected yet.
    pub fn publish(&self, publisher: &Publisher) -> (r: Result<EngineCall, OtcError>)
        ensures
            r == (if self.native().live() && publisher.native().live() {
                Ok::<EngineCall, OtcError>(
                    (EngineCall::SessionPublish {
                        session: self.native().key(),
                        publisher: publisher.native().key(),
                    }),
                )
            } else {
                Err::<EngineCall, OtcError>(OtcError::NullError)
            }),
    {
        if self.handle.is_null() || publisher.handle().is_null() {
            return Err(OtcError::NullError);
        }
        Ok(
            EngineCall::SessionPublish {
                session: self.handle.inner(),
                publisher: publisher.handle().inner(),
            },
        )
    }

    /// The request that starts subscribing a subscriber to its stream in the
    /// session. Both handles must be live; the session need not be connected yet.
    pub fn subscribe(&self, subscriber: &Subscriber) -> (r: Result<EngineCall, OtcError>)
        ensures
            r == (if self.native().live() && subscriber.native().live() {
                Ok::<EngineCall, OtcError>(
                    (EngineCall::SessionSubscribe {
                        session: self.native().key(),
                        subscriber: subscriber.native().key(),
                    }),
                )
            } else {
                Err::<EngineCall, OtcError>(OtcError::NullError)
            }),
    {
        if self.handle.is_null() || subscriber.handle().is_null() {
            return Err(OtcError::NullError);
        }
        Ok(
            EngineCall::SessionSubscribe {
                session: self.handle.inner(),
                subscriber: subscriber.handle().inner(),
            },
        )
    }

    /// Dispatches an event that the engine raised for the native session with
    /// this identity. If no live session is registered under it, the event is
    /// dropped and its native copies are given back, and nothing changes.
    /// Otherwise the session notes what the event says of its connection, and
    /// the event goes to the listener for its kind, if there is one and the
    /// event came without a null pointer.
    pub fn dispatch(pool: &mut Instances<Session>, target: usize, raw: RawSessionEvent) -> (d:
        Dispatch<SessionEvent>)
        requires
            old(pool).wf(),
        ensures
            final(pool).wf(),
            final(pool).count() == old(pool).count(),
            final(pool).routes() == old(pool).routes(),
            final(pool).order() == old(pool).order(),
            !old(pool).routes().contains_key(target) ==> d.drops(raw.discards()) && *final(pool)
                == *old(pool),
            old(pool).routes().contains_key(target) ==> {
                let token = old(pool).routes()[target] as int;
                &&& !raw.deliverable() ==> d.drops(raw.discards())
                &&& raw.deliverable() ==> exists|event: SessionEvent| #[trigger]
                    raw.converts_to(event) && old(pool).object(token).listeners().outcome(
                        target,
                        event,
                        d,
                    )
                &&& final(pool).object(token).state() == state_after_event(
                    old(pool).object(token).state(),
                    raw,
                )
                &&& final(pool).object(token).native() == old(pool).object(token).native()
                &&& final(pool).object(token).listeners() == old(pool).object(token).listeners()
                &&& forall|t: int|
                    0 <= t < old(pool).count() ==> final(pool).owners(t) == old(pool).owners(t)
                &&& forall|t: int|
                    0 <= t < old(pool).count() && t != token ==> final(pool).object(t) == old(
                        pool,
                    ).object(t)
            },
    {
        let token = match pool.route(target) {
            Some(token) => token,
            None => {
                return Dispatch::dropped(raw.discard());
            },
        };
        proof {
            pool.lemma_route_is_live(target);
            pool.lemma_unfold();
        }
        let ghost before = *pool;
        match &raw {
            RawSessionEvent::Connected => {
                pool.slots[token].object.state = SessionState::Connected;
            },
            RawSessionEvent::ReconnectionStarted => {
                pool.slots[token].object.state = SessionState::Reconnecting;
            },
            RawSessionEvent::Reconnected => {
                pool.slots[token].object.state = SessionState::Connected;
            },
            RawSessionEvent::Disconnected => {
                pool.slots[token].object.state = SessionState::Disconnected;
            },
            _ => {},
        }
        proof {
            pool.lemma_same_handles(before);
            pool.lemma_unfold();
        }
        let callbacks = pool.slots[token].object.callbacks;
        match raw.into_event() {
            Ok(event) => callbacks.deliver(target, event),
            Err(discard) => Dispatch::dropped(discard),
        }
    }
}

/// Whatever the state of a session, once the engine reports it connected it is
/// connected, and the report of a lost connection followed by the report of a
/// restored one leaves it connected; a request to connect never takes a session
/// out of a state that the engine reported.
pub proof fn lemma_session_states(state: SessionState, accepted: bool)
    ensures
        state_after_event(state, RawSessionEvent::Connected) == SessionState::Connected,
        state_after_event(
            state_after_event(state, RawSessionEvent::ReconnectionStarted),
            RawSessionEvent::Reconnected,
        ) == SessionState::Connected,
        state_after_event(state, RawSessionEvent::Disconnected) == SessionState::Disconnected,
        state != SessionState::Disconnected ==> state_after_request(state, accepted) == state,
        state_after_request(SessionState::Disconnected, true) == SessionState::Connecting,
        state_after_request(state, false) == state,
{
}

} // verus!
