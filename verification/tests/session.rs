use opentok::codes;
use opentok::connection::RawConnection;
use opentok::context::{init, Context};
use opentok::engine::EngineCall;
use opentok::enums::{IntoResult, OtcError, OTC_SUCCESS};
use opentok::log::{enable_log, logger_callback, LogLevel};
use opentok::publisher::{Publisher, PublisherCallbacks};
use opentok::session::{
    RawSessionEvent, Session, SessionCallbacks, SessionError, SessionEvent, SessionState,
};
use opentok::enums::OTC_FATAL;
use opentok::stream::RawStream;
use opentok::subscriber::{Subscriber, SubscriberCallbacks};

/// Stands in for the engine: it hands out pointers, accepts every request, and
/// keeps the requests in the order in which they were made.
struct EngineStub {
    next: usize,
    log: Vec<EngineCall>,
}

impl EngineStub {
    fn new() -> EngineStub {
        EngineStub { next: 0x1000, log: Vec::new() }
    }

    fn create(&mut self, call: EngineCall) -> usize {
        self.log.push(call);
        self.next += 0x10;
        self.next
    }

    fn perform(&mut self, call: EngineCall) -> i32 {
        self.log.push(call);
        OTC_SUCCESS
    }
}

const ON_CONNECTED: u64 = 1;
const ON_DISCONNECTED: u64 = 2;
const ON_ERROR: u64 = 3;
const ON_STREAM_RECEIVED: u64 = 4;
const ON_STREAM_DROPPED: u64 = 5;

fn setup_test() -> (Context, EngineStub, String, String, String) {
    let (context, calls) = init();
    assert_eq!(calls, vec![EngineCall::Init, EngineCall::SetAudioDevice]);
    let mut engine = EngineStub::new();
    for call in calls {
        engine.perform(call).into_result().unwrap();
    }
    (
        context,
        engine,
        String::from("47000001"),
        String::from("1_MX40NzAwMDAwMX5-"),
        String::from("T1==cGFydG5lcl9pZD00NzAwMDAwMQ=="),
    )
}

fn new_session(
    context: &mut Context,
    engine: &mut EngineStub,
    api_key: &str,
    session_id: &str,
    callbacks: SessionCallbacks,
) -> Result<usize, OtcError> {
    let call = Session::creation_call(api_key, session_id)?;
    let native = engine.create(call);
    Session::new(&mut context.sessions, api_key, session_id, callbacks, native)
}

fn raw_stream(addr: usize, connection: usize, id: &str) -> RawStream {
    RawStream {
        addr,
        id: String::from(id),
        name: String::from("camera"),
        has_video: 1,
        has_video_track: 1,
        has_audio: 1,
        has_audio_track: 1,
        video_width: 1280,
        video_height: 720,
        creation_time: 5,
        video_type: codes::OTC_STREAM_VIDEO_TYPE_CAMERA,
        connection: RawConnection {
            addr: connection,
            id: String::from("conn"),
            session_id: String::from("session"),
            creation_time: 4,
        },
    }
}

#[test]
fn test_logger_callback() {
    let (mut context, mut engine, _, _, _) = setup_test();
    engine.perform(enable_log(LogLevel::All));
    assert_eq!(
        engine.log.last(),
        Some(&EngineCall::LogEnable { level: codes::OTC_LOG_LEVEL_ALL })
    );
    let call = logger_callback(&mut context.loggers, 11);
    assert_eq!(call, EngineCall::SetLoggerCallback);
    engine.perform(call);
    assert_eq!(context.loggers.recipients(), vec![11]);
    logger_callback(&mut context.loggers, 12);
    assert_eq!(context.loggers.recipients(), vec![11, 12]);
}

#[test]
fn test_session_connection() {
    let (mut context, mut engine, api_key, session_id, token) = setup_test();
    let callbacks = SessionCallbacks::builder()
        .on_connected(ON_CONNECTED)
        .on_disconnected(ON_DISCONNECTED)
        .on_error(ON_ERROR)
        .build();
    let session = new_session(&mut context, &mut engine, &api_key, &session_id, callbacks).unwrap();
    let key = context.sessions.get(session).unwrap().inner();
    assert!(context.sessions.is_registered(key));

    let call = context.sessions.get(session).unwrap().connect(&token).unwrap();
    assert_eq!(call, EngineCall::SessionConnect { session: key, token: token.clone() });
    engine.perform(call).into_result().unwrap();

    let connected = Session::dispatch(&mut context.sessions, key, RawSessionEvent::Connected);
    let invocation = connected.invocation.unwrap();
    assert_eq!(invocation.listener, ON_CONNECTED);
    assert_eq!(invocation.target, key);
    assert!(matches!(invocation.event, SessionEvent::Connected));
    assert!(connected.discard.is_empty());

    let call = context.sessions.get(session).unwrap().disconnect().unwrap();
    assert_eq!(call, EngineCall::SessionDisconnect { session: key });
    engine.perform(call).into_result().unwrap();

    let disconnected = Session::dispatch(&mut context.sessions, key, RawSessionEvent::Disconnected);
    assert_eq!(disconnected.invocation.unwrap().listener, ON_DISCONNECTED);
}

fn refused_session(api_key: &str, session_id: &str, token: &str, code: u32) {
    let (mut context, mut engine, _, _, _) = setup_test();
    let callbacks =
        SessionCallbacks::builder().on_connected(ON_CONNECTED).on_error(ON_ERROR).build();
    let session = new_session(&mut context, &mut engine, api_key, session_id, callbacks).unwrap();
    let key = context.sessions.get(session).unwrap().inner();
    let call = context.sessions.get(session).unwrap().connect(token).unwrap();
    engine.perform(call).into_result().unwrap();

    let raised = Session::dispatch(
        &mut context.sessions,
        key,
        RawSessionEvent::Error(Some(String::from("refused")), code),
    );
    let invocation = raised.invocation.unwrap();
    assert_ne!(invocation.listener, ON_CONNECTED, "Unexpected on_connected callback");
    assert_eq!(invocation.listener, ON_ERROR);
    match invocation.event {
        SessionEvent::Error(message, kind) => {
            assert_eq!(message, "refused");
            assert_eq!(kind, SessionError::from(code));
        }
        other => panic!("{:?}", other),
    }
}

#[test]
fn test_session_connection_invalid_api_key() {
    let (_, _, _, session_id, token) = setup_test();
    refused_session("banana", &session_id, &token, codes::OTC_SESSION_AUTHORIZATION_FAILURE);
}

#[test]
fn test_session_connection_invalid_token() {
    let (_, _, api_key, session_id, _) = setup_test();
    refused_session(&api_key, &session_id, "banana", codes::OTC_SESSION_AUTHORIZATION_FAILURE);
}

#[test]
fn test_session_connection_invalid_session_id() {
    let (_, _, api_key, _, token) = setup_test();
    refused_session(&api_key, "banana", &token, codes::OTC_SESSION_INVALID_SESSION);
}

#[test]
fn session_arguments_must_be_c_strings() {
    let (mut context, _, _, _, _) = setup_test();
    let callbacks = SessionCallbacks::builder().build();
    assert_eq!(Session::creation_call("a\0b", "id"), Err(OtcError::InvalidParam("api_key")));
    assert_eq!(Session::creation_call("key", "i\0d"), Err(OtcError::InvalidParam("session_id")));
    assert_eq!(Session::creation_call("a\0b", "i\0d"), Err(OtcError::InvalidParam("api_key")));
    assert_eq!(
        Session::creation_call("key", "id"),
        Ok(EngineCall::SessionNew { api_key: String::from("key"), session_id: String::from("id") })
    );
    assert_eq!(
        Session::new(&mut context.sessions, "a\0b", "id", callbacks, 0x10),
        Err(OtcError::InvalidParam("api_key"))
    );
    assert_eq!(
        Session::new(&mut context.sessions, "key", "i\0d", callbacks, 0x10),
        Err(OtcError::InvalidParam("session_id"))
    );
    assert_eq!(context.sessions.len(), 0);
}

#[test]
fn null_session_is_a_typed_error() {
    let (mut context, _, _, _, _) = setup_test();
    let callbacks = SessionCallbacks::builder().build();
    assert_eq!(
        Session::new(&mut context.sessions, "key", "id", callbacks, 0),
        Err(OtcError::NullError)
    );
    assert_eq!(context.sessions.len(), 0);
    assert!(!context.sessions.is_registered(0));
}

#[test]
fn a_reused_handle_goes_to_the_new_session() {
    let (mut context, _, _, _, _) = setup_test();
    let callbacks = SessionCallbacks::builder().on_connected(1).build();
    let later = SessionCallbacks::builder().on_connected(2).build();
    assert_eq!(Session::new(&mut context.sessions, "key", "id", callbacks, 0x10), Ok(0));
    assert_eq!(Session::new(&mut context.sessions, "key", "id", callbacks, 0x20), Ok(1));
    assert_eq!(Session::new(&mut context.sessions, "key", "id", later, 0x10), Ok(2));
    assert_eq!(context.sessions.registered(), vec![0x10, 0x20]);
    assert_eq!(context.sessions.route(0x10), Some(2));
    assert_eq!(context.sessions.route(0x20), Some(1));
    assert_eq!(context.sessions.route(0x30), None);
    assert_eq!(context.sessions.get(0).unwrap().inner(), 0);
    assert_eq!(context.sessions.owner_count(0), 0);
    assert_eq!(context.release_session(0), vec![]);
    assert_eq!(context.sessions.get(2).unwrap().inner(), 0x10);
    let d = Session::dispatch(&mut context.sessions, 0x10, RawSessionEvent::Connected);
    assert_eq!(d.invocation.unwrap().listener, 2);
}

#[test]
fn events_after_deinit_find_nothing() {
    let (mut context, _, _, _, _) = setup_test();
    let callbacks = SessionCallbacks::builder().on_stream_dropped(ON_STREAM_DROPPED).build();
    let session = Session::new(&mut context.sessions, "key", "id", callbacks, 0x10).unwrap();
    assert_eq!(
        opentok::deinit(&mut context),
        vec![
            EngineCall::SessionDisconnect { session: 0x10 },
            EngineCall::SessionDelete { session: 0x10 },
            EngineCall::Destroy,
        ]
    );
    assert!(!context.sessions.is_registered(0x10));
    assert_eq!(context.sessions.registered(), Vec::<usize>::new());
    assert_eq!(context.sessions.get(session).unwrap().inner(), 0);
    assert_eq!(context.sessions.owner_count(session), 0);
    let late = Session::dispatch(
        &mut context.sessions,
        0x10,
        RawSessionEvent::StreamDropped(raw_stream(0x70, 0x71, "A")),
    );
    assert!(late.invocation.is_none());
    assert_eq!(
        late.discard,
        vec![
            EngineCall::ConnectionDelete { connection: 0x71 },
            EngineCall::StreamDelete { stream: 0x70 },
        ]
    );
    let never = Session::dispatch(&mut context.sessions, 0x999, RawSessionEvent::Connected);
    assert!(never.invocation.is_none());
    assert_eq!(context.release_session(session), vec![]);
    assert_eq!(opentok::deinit(&mut context), vec![EngineCall::Destroy]);
}

#[test]
fn a_released_session_takes_its_attachments_along() {
    let (mut context, _, _, _, _) = setup_test();
    let session = Session::new(
        &mut context.sessions,
        "key",
        "id",
        SessionCallbacks::builder().build(),
        0x10,
    )
    .unwrap();
    let other = Session::new(
        &mut context.sessions,
        "key",
        "id",
        SessionCallbacks::builder().build(),
        0x11,
    )
    .unwrap();
    let publisher =
        Publisher::new(&mut context.publishers, None, PublisherCallbacks::builder().build(), 0x20)
            .unwrap();
    let elsewhere =
        Publisher::new(&mut context.publishers, None, PublisherCallbacks::builder().build(), 0x21)
            .unwrap();
    Publisher::published(&mut context.publishers, publisher, 0x10, OTC_SUCCESS).unwrap();
    Publisher::published(&mut context.publishers, elsewhere, 0x11, OTC_SUCCESS).unwrap();
    context.sessions.share(session).unwrap();
    assert_eq!(context.release_session(session), vec![]);
    assert_eq!(context.publishers.get(publisher).unwrap().session(), 0x10);
    assert_eq!(context.release_session(session), vec![EngineCall::SessionDelete { session: 0x10 }]);
    assert_eq!(context.publishers.get(publisher).unwrap().session(), 0);
    assert_eq!(context.publishers.get(elsewhere).unwrap().session(), 0x11);
    assert_eq!(
        context.release_publisher(publisher),
        vec![EngineCall::PublisherDelete { publisher: 0x20 }]
    );
    assert_eq!(
        context.release_publisher(elsewhere),
        vec![
            EngineCall::SessionUnpublish { session: 0x11, publisher: 0x21 },
            EngineCall::PublisherDelete { publisher: 0x21 },
        ]
    );
    assert_eq!(context.release_session(other), vec![EngineCall::SessionDelete { session: 0x11 }]);
}

#[test]
fn connect_checks_the_handle_then_the_token() {
    let (mut context, _, _, _, _) = setup_test();
    let callbacks = SessionCallbacks::builder().build();
    let session = Session::new(&mut context.sessions, "key", "id", callbacks, 0x10).unwrap();
    assert_eq!(
        context.sessions.get(session).unwrap().connect("to\0ken"),
        Err(OtcError::InvalidParam("token"))
    );
    assert_eq!(
        context.release_session(session),
        vec![EngineCall::SessionDelete { session: 0x10 }]
    );
    let released = context.sessions.get(session).unwrap();
    assert_eq!(released.connect("to\0ken"), Err(OtcError::NullError));
    assert_eq!(released.connect("token"), Err(OtcError::NullError));
    assert_eq!(released.disconnect(), Err(OtcError::NullError));
}

#[test]
fn session_is_registered_exactly_while_its_handle_is_live() {
    let (mut context, _, _, _, _) = setup_test();
    let callbacks = SessionCallbacks::builder().on_connected(ON_CONNECTED).build();
    let session = Session::new(&mut context.sessions, "key", "id", callbacks, 0x10).unwrap();
    assert!(context.sessions.is_registered(0x10));
    assert_eq!(context.sessions.owner_count(session), 1);

    context.sessions.share(session).unwrap();
    assert_eq!(context.sessions.owner_count(session), 2);
    assert_eq!(context.release_session(session), vec![]);
    assert!(context.sessions.is_registered(0x10));
    assert_eq!(context.sessions.get(session).unwrap().inner(), 0x10);

    assert_eq!(
        context.release_session(session),
        vec![EngineCall::SessionDelete { session: 0x10 }]
    );
    assert!(!context.sessions.is_registered(0x10));
    assert_eq!(context.sessions.get(session).unwrap().inner(), 0);
    assert_eq!(context.sessions.owner_count(session), 0);

    assert_eq!(context.release_session(session), vec![]);
    assert_eq!(context.sessions.share(session), Err(OtcError::NullError));
    let late = Session::dispatch(&mut context.sessions, 0x10, RawSessionEvent::Connected);
    assert!(late.invocation.is_none());
    assert_eq!(context.sessions.get(session).unwrap().get_state(), SessionState::Disconnected);
}

#[test]
fn session_follows_the_reports_of_the_engine() {
    let (mut context, _, _, _, _) = setup_test();
    let callbacks = SessionCallbacks::builder().build();
    let session = Session::new(&mut context.sessions, "key", "id", callbacks, 0x10).unwrap();
    let state = |context: &Context| context.sessions.get(session).unwrap().get_state();
    assert_eq!(state(&context), SessionState::Disconnected);
    assert_eq!(Session::requested(&mut context.sessions, session, OTC_FATAL), Err(OtcError::Fatal));
    assert_eq!(state(&context), SessionState::Disconnected);
    assert_eq!(Session::requested(&mut context.sessions, session, OTC_SUCCESS), Ok(()));
    assert_eq!(state(&context), SessionState::Connecting);
    Session::dispatch(&mut context.sessions, 0x10, RawSessionEvent::Connected);
    assert_eq!(state(&context), SessionState::Connected);
    assert_eq!(Session::requested(&mut context.sessions, session, OTC_SUCCESS), Ok(()));
    assert_eq!(state(&context), SessionState::Connected);
    Session::dispatch(&mut context.sessions, 0x10, RawSessionEvent::ReconnectionStarted);
    assert_eq!(state(&context), SessionState::Reconnecting);
    Session::dispatch(&mut context.sessions, 0x10, RawSessionEvent::ArchiveStopped(None));
    assert_eq!(state(&context), SessionState::Reconnecting);
    Session::dispatch(&mut context.sessions, 0x10, RawSessionEvent::Reconnected);
    assert_eq!(state(&context), SessionState::Connected);
    Session::dispatch(&mut context.sessions, 0x10, RawSessionEvent::Disconnected);
    assert_eq!(state(&context), SessionState::Disconnected);
    assert_eq!(Session::requested(&mut context.sessions, 9, OTC_SUCCESS), Ok(()));
}

#[test]
fn event_for_an_unknown_pointer_is_dropped() {
    let (mut context, _, _, _, _) = setup_test();
    let callbacks = SessionCallbacks::builder()
        .on_stream_dropped(ON_STREAM_DROPPED)
        .on_stream_received(ON_STREAM_RECEIVED)
        .build();
    Session::new(&mut context.sessions, "key", "id", callbacks, 0x10).unwrap();
    let dropped = Session::dispatch(
        &mut context.sessions,
        0x9999,
        RawSessionEvent::StreamDropped(raw_stream(0x70, 0x71, "A")),
    );
    assert!(dropped.invocation.is_none());
    assert_eq!(
        dropped.discard,
        vec![
            EngineCall::ConnectionDelete { connection: 0x71 },
            EngineCall::StreamDelete { stream: 0x70 },
        ]
    );
}

#[test]
fn event_without_a_listener_is_ignored() {
    let (mut context, _, _, _, _) = setup_test();
    let callbacks = SessionCallbacks::builder().on_connected(ON_CONNECTED).build();
    Session::new(&mut context.sessions, "key", "id", callbacks, 0x10).unwrap();
    let ignored = Session::dispatch(
        &mut context.sessions,
        0x10,
        RawSessionEvent::StreamReceived(raw_stream(0x70, 0x71, "A")),
    );
    assert!(ignored.invocation.is_none());
    assert_eq!(
        ignored.discard,
        vec![
            EngineCall::ConnectionDelete { connection: 0x71 },
            EngineCall::StreamDelete { stream: 0x70 },
        ]
    );
    let quiet = Session::dispatch(&mut context.sessions, 0x10, RawSessionEvent::Reconnected);
    assert!(quiet.invocation.is_none());
    assert!(quiet.discard.is_empty());
}

#[test]
fn stream_events_hand_over_an_owned_snapshot() {
    let (mut context, _, _, _, _) = setup_test();
    let callbacks = SessionCallbacks::builder()
        .on_stream_received(ON_STREAM_RECEIVED)
        .on_stream_has_audio_changed(20)
        .on_stream_video_dimensions_changed(21)
        .on_stream_video_type_changed(22)
        .build();
    Session::new(&mut context.sessions, "key", "id", callbacks, 0x10).unwrap();

    let received = Session::dispatch(
        &mut context.sessions,
        0x10,
        RawSessionEvent::StreamReceived(raw_stream(0x70, 0x71, "A")),
    );
    assert!(received.discard.is_empty());
    let invocation = received.invocation.unwrap();
    assert_eq!(invocation.listener, ON_STREAM_RECEIVED);
    match invocation.event {
        SessionEvent::StreamReceived(stream) => {
            assert_eq!(stream.id(), "A");
            assert_eq!(stream.inner(), 0x70);
            assert_eq!(stream.get_video_width(), 1280);
        }
        other => panic!("{:?}", other),
    }

    let changed = Session::dispatch(
        &mut context.sessions,
        0x10,
        RawSessionEvent::StreamHasAudioChanged(raw_stream(0x72, 0x73, "B"), 0),
    );
    match changed.invocation.unwrap().event {
        SessionEvent::StreamHasAudioChanged(stream, has_audio) => {
            assert_eq!(stream.id(), "B");
            assert!(!has_audio);
        }
        other => panic!("{:?}", other),
    }

    let resized = Session::dispatch(
        &mut context.sessions,
        0x10,
        RawSessionEvent::StreamVideoDimensionsChanged(raw_stream(0x74, 0x75, "C"), 320, 240),
    );
    assert!(matches!(
        resized.invocation.unwrap().event,
        SessionEvent::StreamVideoDimensionsChanged(_, 320, 240)
    ));

    let retyped = Session::dispatch(
        &mut context.sessions,
        0x10,
        RawSessionEvent::StreamVideoTypeChanged(
            raw_stream(0x76, 0x77, "D"),
            codes::OTC_STREAM_VIDEO_TYPE_SCREEN,
        ),
    );
    assert!(matches!(
        retyped.invocation.unwrap().event,
        SessionEvent::StreamVideoTypeChanged(_, opentok::stream::StreamVideoType::Screen)
    ));
}

#[test]
fn events_with_null_pointers_are_dropped() {
    let (mut context, _, _, _, _) = setup_test();
    let callbacks = SessionCallbacks::builder()
        .on_stream_has_video_changed(30)
        .on_signal_received(31)
        .on_archive_started(32)
        .on_archive_stopped(33)
        .on_error(ON_ERROR)
        .on_connection_created(34)
        .build();
    Session::new(&mut context.sessions, "key", "id", callbacks, 0x10).unwrap();
    let connection = |addr: usize| RawConnection {
        addr,
        id: String::from("c"),
        session_id: String::from("s"),
        creation_time: 0,
    };

    let d = Session::dispatch(
        &mut context.sessions,
        0x10,
        RawSessionEvent::StreamHasVideoChanged(raw_stream(0, 0, "A"), 1),
    );
    assert!(d.invocation.is_none() && d.discard.is_empty());

    let d = Session::dispatch(
        &mut context.sessions,
        0x10,
        RawSessionEvent::SignalReceived(None, Some(String::from("hi")), connection(0x50)),
    );
    assert!(d.invocation.is_none());
    assert_eq!(d.discard, vec![EngineCall::ConnectionDelete { connection: 0x50 }]);

    let d = Session::dispatch(
        &mut context.sessions,
        0x10,
        RawSessionEvent::SignalReceived(
            Some(String::from("chat")),
            Some(String::from("hi")),
            connection(0),
        ),
    );
    assert!(d.invocation.is_none() && d.discard.is_empty());

    let d = Session::dispatch(
        &mut context.sessions,
        0x10,
        RawSessionEvent::ArchiveStarted(Some(String::from("id")), None),
    );
    assert!(d.invocation.is_none());
    let d = Session::dispatch(&mut context.sessions, 0x10, RawSessionEvent::ArchiveStopped(None));
    assert!(d.invocation.is_none());
    let d = Session::dispatch(&mut context.sessions, 0x10, RawSessionEvent::Error(None, 1004));
    assert!(d.invocation.is_none());
    let d = Session::dispatch(
        &mut context.sessions,
        0x10,
        RawSessionEvent::ConnectionCreated(connection(0)),
    );
    assert!(d.invocation.is_none());

    let d = Session::dispatch(
        &mut context.sessions,
        0x10,
        RawSessionEvent::SignalReceived(
            Some(String::from("chat")),
            Some(String::from("hi")),
            connection(0x51),
        ),
    );
    match d.invocation.unwrap().event {
        SessionEvent::SignalReceived(kind, signal, from) => {
            assert_eq!(kind, "chat");
            assert_eq!(signal, "hi");
            assert_eq!(from.inner(), 0x51);
        }
        other => panic!("{:?}", other),
    }
    let d = Session::dispatch(
        &mut context.sessions,
        0x10,
        RawSessionEvent::ArchiveStarted(Some(String::from("id")), Some(String::from("name"))),
    );
    assert_eq!(d.invocation.unwrap().listener, 32);
    let d = Session::dispatch(
        &mut context.sessions,
        0x10,
        RawSessionEvent::ArchiveStopped(Some(String::from("id"))),
    );
    assert_eq!(d.invocation.unwrap().listener, 33);
}

#[test]
fn later_listener_replaces_the_earlier_one() {
    let (mut context, _, _, _, _) = setup_test();
    let callbacks = SessionCallbacks::builder().on_connected(1).on_connected(2).build();
    Session::new(&mut context.sessions, "key", "id", callbacks, 0x10).unwrap();
    let d = Session::dispatch(&mut context.sessions, 0x10, RawSessionEvent::Connected);
    assert_eq!(d.invocation.unwrap().listener, 2);
    assert_eq!(SessionCallbacks::builder().build(), SessionCallbacks::builder().build());
    assert_ne!(callbacks, SessionCallbacks::builder().on_connected(1).build());
}

#[test]
fn listener_set_methods_deliver_or_ignore() {
    let callbacks = SessionCallbacks::builder().on_error(ON_ERROR).on_archive_stopped(40).build();
    let d = callbacks.on_error(0x10, String::from("boom"), SessionError::IllegalState);
    let invocation = d.invocation.unwrap();
    assert_eq!(invocation.listener, ON_ERROR);
    assert_eq!(invocation.target, 0x10);
    assert!(matches!(invocation.event, SessionEvent::Error(_, SessionError::IllegalState)));
    let d = callbacks.on_archive_stopped(0x10, String::from("a"));
    assert_eq!(d.invocation.unwrap().listener, 40);
    let d = callbacks.on_archive_started(0x10, String::from("a"), String::from("n"));
    assert!(d.invocation.is_none());
    let stream = opentok::stream::Stream::try_from_raw(raw_stream(0x70, 0x71, "A")).unwrap();
    let d = callbacks.on_stream_has_audio_changed(0x10, stream, true);
    assert!(d.invocation.is_none());
    assert_eq!(d.discard.len(), 2);
    let stream = opentok::stream::Stream::try_from_raw(raw_stream(0x72, 0x73, "B")).unwrap();
    let d = callbacks.on_stream_has_video_changed(0x10, stream, true);
    assert!(d.invocation.is_none());
    let connection = opentok::connection::Connection::try_from_raw(RawConnection {
        addr: 0x60,
        id: String::from("c"),
        session_id: String::from("s"),
        creation_time: 0,
    })
    .unwrap();
    let d = callbacks.on_signal_received(0x10, String::from("t"), String::from("s"), connection);
    assert!(d.invocation.is_none());
    assert_eq!(d.discard, vec![EngineCall::ConnectionDelete { connection: 0x60 }]);
}

#[test]
fn publish_and_subscribe_need_live_handles() {
    let (mut context, _, _, _, _) = setup_test();
    let session = Session::new(
        &mut context.sessions,
        "key",
        "id",
        SessionCallbacks::builder().build(),
        0x10,
    )
    .unwrap();
    let publisher =
        Publisher::new(&mut context.publishers, None, PublisherCallbacks::builder().build(), 0x20)
            .unwrap();
    let subscriber = Subscriber::new(&mut context.subscribers, SubscriberCallbacks::builder().build());
    {
        let s = context.sessions.get(session).unwrap();
        assert_eq!(
            s.publish(context.publishers.get(publisher).unwrap()),
            Ok(EngineCall::SessionPublish { session: 0x10, publisher: 0x20 })
        );
        assert_eq!(
            s.subscribe(context.subscribers.get(subscriber).unwrap()),
            Err(OtcError::NullError)
        );
    }
    context.release_publisher(publisher);
    let s = context.sessions.get(session).unwrap();
    assert_eq!(s.publish(context.publishers.get(publisher).unwrap()), Err(OtcError::NullError));
}
