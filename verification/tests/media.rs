use opentok::audio_device::{
    AudioDevice, AudioDeviceCallbacks, AudioDeviceError, AudioDeviceRequest, AudioDeviceSettings,
    AudioSampleData, RENDER_PERIOD_MICROS,
};
use opentok::codes;
use opentok::connection::RawConnection;
use opentok::context::{deinit, init};
use opentok::engine::EngineCall;
use opentok::enums::{IntoResult, OtcError, OTC_FATAL, OTC_SUCCESS};
use opentok::publisher::{
    Publisher, PublisherCallbacks, PublisherError, PublisherEvent, RawPublisherEvent,
};
use opentok::registry::Registry;
use opentok::session::{RawSessionEvent, Session, SessionCallbacks, SessionEvent};
use opentok::stream::{RawStream, Stream};
use opentok::subscriber::{
    preferred_framerate, preferred_resolution, subscription_flag, RawSubscriberEvent, Subscriber,
    SubscriberCallbacks, SubscriberError, SubscriberEvent, VideoReason,
};
use opentok::video_capturer::{
    CapturerReply, CapturerRequest, CapturerTable, RawCapturerSettings, VideoCapturer,
    VideoCapturerCallbacks, VideoCapturerSettings,
};
use opentok::video_frame::{FrameFormat, RawVideoFrame, VideoFrame};

fn raw_stream(addr: usize, connection: usize, id: &str) -> RawStream {
    RawStream {
        addr,
        id: String::from(id),
        name: String::from("camera"),
        has_video: 1,
        has_video_track: 1,
        has_audio: 1,
        has_audio_track: 1,
        video_width: 1280,
        video_height: 720,
        creation_time: 5,
        video_type: codes::OTC_STREAM_VIDEO_TYPE_CAMERA,
        connection: RawConnection {
            addr: connection,
            id: String::from("conn"),
            session_id: String::from("session"),
            creation_time: 4,
        },
    }
}

fn raw_frame(addr: usize) -> RawVideoFrame {
    RawVideoFrame {
        addr,
        format: codes::OTC_VIDEO_FRAME_FORMAT_YUV420P,
        width: 2,
        height: 2,
        timestamp: 0,
        buffer: vec![0; 6],
        planes: vec![],
    }
}

#[test]
fn test_publisher() {
    let (mut context, calls) = init();
    assert_eq!(calls.len(), 2);
    let capturer_callbacks = VideoCapturerCallbacks::builder().start(10).stop(11).build();
    let capturer =
        VideoCapturer::new(&mut context.capturers, VideoCapturerSettings::default(), capturer_callbacks);
    let publisher_callbacks =
        PublisherCallbacks::builder().on_stream_created(20).on_error(21).build();
    assert_eq!(
        Publisher::creation_call("publisher", Some(capturer)),
        EngineCall::PublisherNew { name: String::from("publisher"), capturer: Some(capturer) }
    );
    let publisher =
        Publisher::new(&mut context.publishers, Some(capturer), publisher_callbacks, 0x2000).unwrap();
    let session_callbacks = SessionCallbacks::builder().on_connected(30).on_error(31).build();
    let session =
        Session::new(&mut context.sessions, "10000", "30", session_callbacks, 0x1000).unwrap();

    let connect = context.sessions.get(session).unwrap().connect("1000").unwrap();
    assert_eq!(connect, EngineCall::SessionConnect { session: 0x1000, token: String::from("1000") });
    let connected = Session::dispatch(&mut context.sessions, 0x1000, RawSessionEvent::Connected);
    let invocation = connected.invocation.unwrap();
    assert_eq!(invocation.listener, 30);
    assert!(matches!(invocation.event, SessionEvent::Connected));

    let publish = context
        .sessions
        .get(session)
        .unwrap()
        .publish(context.publishers.get(publisher).unwrap())
        .unwrap();
    assert_eq!(publish, EngineCall::SessionPublish { session: 0x1000, publisher: 0x2000 });
    assert_eq!(Publisher::published(&mut context.publishers, publisher, 0x1000, OTC_SUCCESS), Ok(()));

    assert_eq!(
        VideoCapturer::serve(&mut context.capturers, capturer, CapturerRequest::Init(0x3000)),
        CapturerReply::Answer(1)
    );
    assert_eq!(
        VideoCapturer::serve(&mut context.capturers, capturer, CapturerRequest::Start),
        CapturerReply::Ask { listener: 10, capturer }
    );
    let frame = VideoFrame::new(FrameFormat::Yuv420P, 1280, 720, vec![0; 16], 0x4000).unwrap();
    assert_eq!(
        context.capturers.get(capturer).unwrap().provide_frame(0, &frame),
        Ok(EngineCall::VideoCapturerProvideFrame { capturer: 0x3000, rotation: 0, frame: 0x4000 })
    );

    assert_eq!(context.publishers.get(publisher).unwrap().stream(), None);
    let created = Publisher::dispatch(
        &mut context.publishers,
        0x2000,
        RawPublisherEvent::StreamCreated(raw_stream(0x70, 0x71, "A")),
    );
    let invocation = created.invocation.unwrap();
    assert_eq!(invocation.listener, 20);
    assert!(matches!(invocation.event, PublisherEvent::StreamCreated(_)));
    assert_eq!(
        context.publishers.get(publisher).unwrap().stream(),
        Some(EngineCall::PublisherGetStream { publisher: 0x2000 })
    );

    assert_eq!(
        deinit(&mut context),
        vec![
            EngineCall::SessionUnpublish { session: 0x1000, publisher: 0x2000 },
            EngineCall::PublisherDelete { publisher: 0x2000 },
            EngineCall::SessionDisconnect { session: 0x1000 },
            EngineCall::SessionDelete { session: 0x1000 },
            EngineCall::Destroy,
        ]
    );
    assert!(!context.publishers.is_registered(0x2000));
    assert!(!context.sessions.is_registered(0x1000));
}

#[test]
fn test_subscriber() {
    let (mut context, _) = init();
    context.audio_device.set_on_audio_sample_callback(50);
    let subscriber_callbacks =
        SubscriberCallbacks::builder().on_render_frame(40).on_error(41).build();
    let subscriber = Subscriber::new(&mut context.subscribers, subscriber_callbacks);
    let session_callbacks =
        SessionCallbacks::builder().on_stream_received(30).on_error(31).build();
    let session = Session::new(&mut context.sessions, "key", "id", session_callbacks, 0x1000).unwrap();

    let received = Session::dispatch(
        &mut context.sessions,
        0x1000,
        RawSessionEvent::StreamReceived(raw_stream(0x70, 0x71, "A")),
    );
    let stream = match received.invocation.unwrap().event {
        SessionEvent::StreamReceived(stream) => stream,
        other => panic!("{:?}", other),
    };
    let create = Subscriber::set_stream(&mut context.subscribers, subscriber, stream).unwrap();
    assert_eq!(create, EngineCall::SubscriberNew { stream: 0x70 });
    assert_eq!(Subscriber::created(&mut context.subscribers, subscriber, 0x5000), Ok(()));
    let subscribe = context
        .sessions
        .get(session)
        .unwrap()
        .subscribe(context.subscribers.get(subscriber).unwrap())
        .unwrap();
    assert_eq!(subscribe, EngineCall::SessionSubscribe { session: 0x1000, subscriber: 0x5000 });
    assert_eq!(
        Subscriber::subscribed(&mut context.subscribers, subscriber, 0x1000, OTC_SUCCESS),
        Ok(())
    );

    let rendered = Subscriber::dispatch(
        &context.subscribers,
        0x5000,
        RawSubscriberEvent::RenderFrame(raw_frame(0x90)),
    );
    let invocation = rendered.invocation.unwrap();
    assert_eq!(invocation.listener, 40);
    assert!(matches!(invocation.event, SubscriberEvent::RenderFrame(_)));

    assert_eq!(context.audio_device.serve(AudioDeviceRequest::StartRenderer), (1, None));
    let round = context.audio_device.render_round(&vec![1, 2, 3]);
    assert_eq!(round.deliveries.len(), 1);
    assert_eq!(round.deliveries[0].listener, 50);

    assert_eq!(
        deinit(&mut context),
        vec![
            EngineCall::SessionUnsubscribe { session: 0x1000, subscriber: 0x5000 },
            EngineCall::SubscriberDelete { subscriber: 0x5000 },
            EngineCall::SessionDisconnect { session: 0x1000 },
            EngineCall::SessionDelete { session: 0x1000 },
            EngineCall::Destroy,
        ]
    );
    assert_eq!(context.audio_device.render_request(), None);
    assert!(!context.subscribers.is_registered(0x5000));
    let late = Subscriber::dispatch(&context.subscribers, 0x5000, RawSubscriberEvent::Disconnected);
    assert!(late.invocation.is_none());
    assert_eq!(context.subscribers.get(subscriber).unwrap().get_stream().unwrap().id(), "A");
}

#[test]
fn null_publisher_is_a_typed_error() {
    let (mut context, _) = init();
    let callbacks = PublisherCallbacks::builder().build();
    assert_eq!(
        Publisher::new(&mut context.publishers, None, callbacks, 0),
        Err(OtcError::NullError)
    );
    assert_eq!(context.publishers.len(), 0);
    assert_eq!(Publisher::new(&mut context.publishers, None, callbacks, 0x20), Ok(0));
    assert_eq!(Publisher::new(&mut context.publishers, None, callbacks, 0x20), Ok(1));
    assert_eq!(context.publishers.route(0x20), Some(1));
    assert_eq!(context.publishers.get(0).unwrap().inner(), 0);
    assert_eq!(context.release_publisher(0), vec![]);
    assert_eq!(
        context.release_publisher(1),
        vec![EngineCall::PublisherDelete { publisher: 0x20 }]
    );
}

#[test]
fn publisher_name_must_be_a_c_string() {
    assert_eq!(
        Publisher::creation_call("pub\0lisher", None),
        EngineCall::PublisherNew { name: String::new(), capturer: None }
    );
}

#[test]
fn publisher_toggles_need_a_live_handle() {
    let (mut context, _) = init();
    let publisher =
        Publisher::new(&mut context.publishers, None, PublisherCallbacks::builder().build(), 0x20)
            .unwrap();
    {
        let p = context.publishers.get(publisher).unwrap();
        assert_eq!(
            p.toggle_audio(false),
            Ok(EngineCall::PublisherSetPublishAudio { publisher: 0x20, enabled: false })
        );
        assert_eq!(
            p.toggle_video(true),
            Ok(EngineCall::PublisherSetPublishVideo { publisher: 0x20, enabled: true })
        );
        assert_eq!(p.unpublish(), None);
    }
    context.release_publisher(publisher);
    let p = context.publishers.get(publisher).unwrap();
    assert_eq!(p.toggle_audio(false), Err(OtcError::NullError));
    assert_eq!(p.toggle_video(true), Err(OtcError::NullError));
    assert_eq!(p.stream(), None);
}

#[test]
fn attached_publisher_is_unpublished_before_it_is_deleted() {
    let (mut context, _) = init();
    let callbacks = PublisherCallbacks::builder().build();
    let attached = Publisher::new(&mut context.publishers, None, callbacks, 0x20).unwrap();
    let loose = Publisher::new(&mut context.publishers, None, callbacks, 0x30).unwrap();
    let refused = Publisher::new(&mut context.publishers, None, callbacks, 0x40).unwrap();
    assert_eq!(Publisher::published(&mut context.publishers, attached, 0x10, OTC_SUCCESS), Ok(()));
    assert_eq!(
        Publisher::published(&mut context.publishers, refused, 0x10, OTC_FATAL),
        Err(OtcError::Fatal)
    );
    assert_eq!(context.publishers.get(attached).unwrap().session(), 0x10);
    assert_eq!(context.publishers.get(refused).unwrap().session(), 0);
    assert_eq!(
        context.publishers.get(attached).unwrap().unpublish(),
        Some(EngineCall::SessionUnpublish { session: 0x10, publisher: 0x20 })
    );

    assert_eq!(
        context.release_publisher(attached),
        vec![
            EngineCall::SessionUnpublish { session: 0x10, publisher: 0x20 },
            EngineCall::PublisherDelete { publisher: 0x20 },
        ]
    );
    assert_eq!(
        context.release_publisher(loose),
        vec![EngineCall::PublisherDelete { publisher: 0x30 }]
    );
    assert_eq!(
        context.release_publisher(refused),
        vec![EngineCall::PublisherDelete { publisher: 0x40 }]
    );
    assert_eq!(context.release_publisher(attached), vec![]);
    assert_eq!(context.publishers.registered(), Vec::<usize>::new());
}

#[test]
fn publisher_follows_its_stream() {
    let (mut context, _) = init();
    let callbacks = PublisherCallbacks::builder().on_audio_level_updated(7).on_error(8).build();
    let publisher = Publisher::new(&mut context.publishers, None, callbacks, 0x20).unwrap();
    let created = Publisher::dispatch(
        &mut context.publishers,
        0x20,
        RawPublisherEvent::StreamCreated(raw_stream(0x70, 0x71, "A")),
    );
    assert!(created.invocation.is_none());
    assert_eq!(created.discard.len(), 2);
    assert!(context.publishers.get(publisher).unwrap().stream().is_some());
    let destroyed = Publisher::dispatch(
        &mut context.publishers,
        0x20,
        RawPublisherEvent::StreamDestroyed(raw_stream(0, 0, "A")),
    );
    assert!(destroyed.invocation.is_none());
    assert!(context.publishers.get(publisher).unwrap().stream().is_none());

    let level = Publisher::dispatch(
        &mut context.publishers,
        0x20,
        RawPublisherEvent::AudioLevelUpdated(0.5f32.to_bits()),
    );
    match level.invocation.unwrap().event {
        PublisherEvent::AudioLevelUpdated(bits) => assert_eq!(f32::from_bits(bits), 0.5),
        other => panic!("{:?}", other),
    }
    let failed = Publisher::dispatch(
        &mut context.publishers,
        0x20,
        RawPublisherEvent::Error(Some(String::from("x")), codes::OTC_PUBLISHER_TIMED_OUT),
    );
    assert!(matches!(
        failed.invocation.unwrap().event,
        PublisherEvent::Error(_, PublisherError::TimedOut)
    ));
    let lost = Publisher::dispatch(
        &mut context.publishers,
        0x999,
        RawPublisherEvent::RenderFrame(raw_frame(0x90)),
    );
    assert!(lost.invocation.is_none());
    assert_eq!(lost.discard, vec![EngineCall::VideoFrameDelete { frame: 0x90 }]);
}

#[test]
fn subscriber_is_bound_to_one_stream() {
    let (mut context, _) = init();
    let subscriber = Subscriber::new(&mut context.subscribers, SubscriberCallbacks::builder().build());
    assert!(context.subscribers.get(subscriber).unwrap().get_stream().is_none());
    let a = Stream::try_from_raw(raw_stream(0x70, 0x71, "A")).unwrap();
    let b = Stream::try_from_raw(raw_stream(0x80, 0x81, "B")).unwrap();
    assert_eq!(
        Subscriber::set_stream(&mut context.subscribers, subscriber, a).unwrap(),
        EngineCall::SubscriberNew { stream: 0x70 }
    );
    let rejected = Subscriber::set_stream(&mut context.subscribers, subscriber, b).unwrap_err();
    assert_eq!(rejected.error, OtcError::AlreadyInitialized("stream"));
    assert_eq!(
        rejected.discard,
        vec![
            EngineCall::ConnectionDelete { connection: 0x81 },
            EngineCall::StreamDelete { stream: 0x80 },
        ]
    );
    let bound = context.subscribers.get(subscriber).unwrap().get_stream().unwrap();
    assert_eq!(bound.id(), "A");
    assert_eq!(bound.inner(), 0x70);
}

#[test]
fn set_stream_on_an_unknown_token_is_a_typed_error() {
    let (mut context, _) = init();
    let a = Stream::try_from_raw(raw_stream(0x70, 0x71, "A")).unwrap();
    let rejected = Subscriber::set_stream(&mut context.subscribers, 5, a).unwrap_err();
    assert_eq!(rejected.error, OtcError::NullError);
    assert_eq!(rejected.discard.len(), 2);
}

#[test]
fn subscriber_without_a_stream_fails_with_null_error() {
    let (mut context, _) = init();
    let token = Subscriber::new(&mut context.subscribers, SubscriberCallbacks::builder().build());
    let subscriber = context.subscribers.get(token).unwrap();
    assert_eq!(subscriber.inner(), 0);
    assert_eq!(subscriber.set_subscribe_to_video(true), Err(OtcError::NullError));
    assert_eq!(subscriber.set_subscribe_to_audio(true), Err(OtcError::NullError));
    assert_eq!(subscriber.get_subscribe_to_video(), Err(OtcError::NullError));
    assert_eq!(subscriber.get_subscribe_to_audio(), Err(OtcError::NullError));
    assert_eq!(subscriber.set_preferred_resolution(640, 480), Err(OtcError::NullError));
    assert_eq!(subscriber.get_preferred_resolution(), Err(OtcError::NullError));
    assert_eq!(subscriber.set_preferred_framerate(30.0f32.to_bits()), Err(OtcError::NullError));
    assert_eq!(subscriber.get_preferred_framerate(), Err(OtcError::NullError));
    assert_eq!(subscriber.unsubscribe(), None);
    assert!(!context.subscribers.is_registered(0));
}

#[test]
fn bound_subscriber_issues_its_requests() {
    let (mut context, _) = init();
    let token = Subscriber::new(&mut context.subscribers, SubscriberCallbacks::builder().build());
    let a = Stream::try_from_raw(raw_stream(0x70, 0x71, "A")).unwrap();
    assert_eq!(Subscriber::created(&mut context.subscribers, token, 0x50), Err(OtcError::NullError));
    assert!(!context.subscribers.is_registered(0x50));
    assert_eq!(context.subscribers.get(token).unwrap().inner(), 0);
    Subscriber::set_stream(&mut context.subscribers, token, a).unwrap();
    assert_eq!(Subscriber::created(&mut context.subscribers, token, 0), Err(OtcError::NullError));
    assert_eq!(Subscriber::created(&mut context.subscribers, 9, 0x50), Err(OtcError::NullError));
    assert_eq!(Subscriber::created(&mut context.subscribers, token, 0x50), Ok(()));
    assert_eq!(
        Subscriber::created(&mut context.subscribers, token, 0x60),
        Err(OtcError::AlreadyInitialized("handle"))
    );
    assert!(context.subscribers.is_registered(0x50));
    assert!(!context.subscribers.is_registered(0x60));
    let subscriber = context.subscribers.get(token).unwrap();
    assert_eq!(subscriber.get_stream().unwrap().id(), "A");
    assert_eq!(
        subscriber.set_subscribe_to_video(false),
        Ok(EngineCall::SubscriberSetSubscribeToVideo { subscriber: 0x50, enabled: false })
    );
    assert_eq!(
        subscriber.set_subscribe_to_audio(false),
        Ok(EngineCall::SubscriberSetSubscribeToAudio { subscriber: 0x50, enabled: false })
    );
    assert_eq!(
        subscriber.get_subscribe_to_video(),
        Ok(EngineCall::SubscriberGetSubscribeToVideo { subscriber: 0x50 })
    );
    assert_eq!(
        subscriber.get_subscribe_to_audio(),
        Ok(EngineCall::SubscriberGetSubscribeToAudio { subscriber: 0x50 })
    );
    assert_eq!(
        subscriber.set_preferred_resolution(640, 480),
        Ok(EngineCall::SubscriberSetPreferredResolution { subscriber: 0x50, width: 640, height: 480 })
    );
    assert_eq!(
        subscriber.get_preferred_resolution(),
        Ok(EngineCall::SubscriberGetPreferredResolution { subscriber: 0x50 })
    );
    assert_eq!(
        subscriber.set_preferred_framerate(15.0f32.to_bits()),
        Ok(EngineCall::SubscriberSetPreferredFramerate {
            subscriber: 0x50,
            framerate_bits: 15.0f32.to_bits(),
        })
    );
    assert_eq!(
        subscriber.get_preferred_framerate(),
        Ok(EngineCall::SubscriberGetPreferredFramerate { subscriber: 0x50 })
    );
}

#[test]
fn engine_answers_are_decoded() {
    assert!(subscription_flag(1));
    assert!(subscription_flag(-3));
    assert!(!subscription_flag(0));
    assert_eq!(preferred_resolution(OTC_SUCCESS, 640, 480), Ok((640, 480)));
    assert_eq!(preferred_resolution(OTC_FATAL, 640, 480), Err(OtcError::Fatal));
    assert_eq!(preferred_framerate(OTC_SUCCESS, 7), Ok(7));
    assert_eq!(preferred_framerate(OTC_FATAL, 7), Err(OTC_FATAL.into_result().unwrap_err()));
}

#[test]
fn attached_subscriber_is_unsubscribed_before_it_is_deleted() {
    let (mut context, _) = init();
    let token = Subscriber::new(&mut context.subscribers, SubscriberCallbacks::builder().build());
    let a = Stream::try_from_raw(raw_stream(0x70, 0x71, "A")).unwrap();
    Subscriber::set_stream(&mut context.subscribers, token, a).unwrap();
    Subscriber::created(&mut context.subscribers, token, 0x50).unwrap();
    assert_eq!(Subscriber::subscribed(&mut context.subscribers, token, 0x10, OTC_SUCCESS), Ok(()));
    assert_eq!(
        context.subscribers.get(token).unwrap().unsubscribe(),
        Some(EngineCall::SessionUnsubscribe { session: 0x10, subscriber: 0x50 })
    );
    assert_eq!(
        context.release_subscriber(token),
        vec![
            EngineCall::SessionUnsubscribe { session: 0x10, subscriber: 0x50 },
            EngineCall::SubscriberDelete { subscriber: 0x50 },
        ]
    );
    assert_eq!(context.release_subscriber(token), vec![]);
    assert!(!context.subscribers.is_registered(0x50));
    assert_eq!(context.subscribers.get(token).unwrap().get_stream().unwrap().id(), "A");

    let loose = Subscriber::new(&mut context.subscribers, SubscriberCallbacks::builder().build());
    assert_eq!(context.release_subscriber(loose), vec![]);
}

#[test]
fn subscriber_events_are_decoded() {
    let (mut context, _) = init();
    let callbacks = SubscriberCallbacks::builder()
        .on_connected(1)
        .on_video_disabled(2)
        .on_video_enabled(3)
        .on_audio_level_updated(4)
        .on_error(5)
        .on_disconnected(6)
        .build();
    let token = Subscriber::new(&mut context.subscribers, callbacks);
    let a = Stream::try_from_raw(raw_stream(0x70, 0x71, "A")).unwrap();
    Subscriber::set_stream(&mut context.subscribers, token, a).unwrap();
    Subscriber::created(&mut context.subscribers, token, 0x50).unwrap();

    let d = Subscriber::dispatch(
        &context.subscribers,
        0x50,
        RawSubscriberEvent::VideoDisabled(codes::OTC_VIDEO_REASON_QUALITY),
    );
    let invocation = d.invocation.unwrap();
    assert_eq!(invocation.listener, 2);
    assert!(matches!(invocation.event, SubscriberEvent::VideoDisabled(VideoReason::Quality)));
    let d = Subscriber::dispatch(
        &context.subscribers,
        0x50,
        RawSubscriberEvent::VideoEnabled(codes::OTC_VIDEO_REASON_SUBSCRIBE_TO_VIDEO),
    );
    assert!(matches!(
        d.invocation.unwrap().event,
        SubscriberEvent::VideoEnabled(VideoReason::Subscribe)
    ));
    let d = Subscriber::dispatch(
        &context.subscribers,
        0x50,
        RawSubscriberEvent::Error(Some(String::from("x")), codes::OTC_SUBSCRIBER_WEBRTC_ERROR),
    );
    assert!(matches!(
        d.invocation.unwrap().event,
        SubscriberEvent::Error(_, SubscriberError::WebRtcError)
    ));
    let d = Subscriber::dispatch(&context.subscribers, 0x50, RawSubscriberEvent::Error(None, 1));
    assert!(d.invocation.is_none());
    let d = Subscriber::dispatch(&context.subscribers, 0x50, RawSubscriberEvent::AudioEnabled);
    assert!(d.invocation.is_none());
    let d = Subscriber::dispatch(
        &context.subscribers,
        0x50,
        RawSubscriberEvent::Connected(raw_stream(0x72, 0x73, "B")),
    );
    assert_eq!(d.invocation.unwrap().listener, 1);
    let d = Subscriber::dispatch(&context.subscribers, 0x51, RawSubscriberEvent::Disconnected);
    assert!(d.invocation.is_none());
    let d = Subscriber::dispatch(&context.subscribers, 0x50, RawSubscriberEvent::Disconnected);
    assert_eq!(d.invocation.unwrap().listener, 6);
}

#[test]
fn provide_frame_before_init_fails_with_null_error() {
    let mut capturers: Registry<VideoCapturer> = Registry::new();
    let token = VideoCapturer::new(
        &mut capturers,
        VideoCapturerSettings::default(),
        VideoCapturerCallbacks::builder().build(),
    );
    assert_eq!(token, 1);
    let frame = VideoFrame::new(FrameFormat::Yuv420P, 2, 2, vec![0; 6], 0x90).unwrap();
    assert_eq!(
        capturers.get(token).unwrap().provide_frame(90, &frame),
        Err(OtcError::NullError)
    );
    assert_eq!(
        VideoCapturer::serve(&mut capturers, token, CapturerRequest::Init(0x30)),
        CapturerReply::Answer(1)
    );
    assert_eq!(
        capturers.get(token).unwrap().provide_frame(90, &frame),
        Ok(EngineCall::VideoCapturerProvideFrame { capturer: 0x30, rotation: 90, frame: 0x90 })
    );
    let mut frame = frame;
    frame.release();
    assert_eq!(
        capturers.get(token).unwrap().provide_frame(90, &frame),
        Err(OtcError::NullError)
    );
}

#[test]
fn capturer_requests_go_to_their_listeners() {
    let mut capturers: Registry<VideoCapturer> = Registry::new();
    let callbacks = VideoCapturerCallbacks::builder().init(1).destroy(2).start(3).stop(4).build();
    let first = VideoCapturer::new(&mut capturers, VideoCapturerSettings::default(), callbacks);
    let second = VideoCapturer::new(
        &mut capturers,
        VideoCapturerSettings::default(),
        VideoCapturerCallbacks::builder().build(),
    );
    assert_eq!((first, second), (1, 2));
    assert_eq!(capturers.get(first).unwrap().id(), 1);
    assert_eq!(
        VideoCapturer::serve(&mut capturers, first, CapturerRequest::Init(0x30)),
        CapturerReply::Ask { listener: 1, capturer: 1 }
    );
    assert_eq!(capturers.get(first).unwrap().inner(), 0x30);
    assert_eq!(capturers.get(second).unwrap().inner(), 0);
    assert_eq!(
        VideoCapturer::serve(&mut capturers, first, CapturerRequest::Start),
        CapturerReply::Ask { listener: 3, capturer: 1 }
    );
    assert_eq!(
        VideoCapturer::serve(&mut capturers, first, CapturerRequest::Stop),
        CapturerReply::Ask { listener: 4, capturer: 1 }
    );
    assert_eq!(
        VideoCapturer::serve(&mut capturers, first, CapturerRequest::Destroy),
        CapturerReply::Ask { listener: 2, capturer: 1 }
    );
    assert_eq!(
        VideoCapturer::serve(&mut capturers, second, CapturerRequest::Stop),
        CapturerReply::Answer(1)
    );
    assert_eq!(
        VideoCapturer::serve(&mut capturers, 77, CapturerRequest::Start),
        CapturerReply::Answer(0)
    );
    assert_eq!(VideoCapturer::answer(Ok(())), 1);
    assert_eq!(VideoCapturer::answer(Err(OtcError::Fatal)), 0);
}

#[test]
fn capturer_settings_and_table() {
    let defaults = VideoCapturerSettings::default();
    assert_eq!(defaults.width, 1280);
    assert_eq!(defaults.height, 720);
    assert_eq!(defaults.fps, 30);
    assert_eq!(defaults.expected_delay, 0);
    assert!(!defaults.mirror_on_local_render);
    assert_eq!(defaults.format, FrameFormat::Yuv420P);

    let mut capturers: Registry<VideoCapturer> = Registry::new();
    let settings = VideoCapturerSettings {
        format: FrameFormat::Nv12,
        width: 640,
        height: 480,
        fps: 15,
        expected_delay: 3,
        mirror_on_local_render: true,
    };
    let token =
        VideoCapturer::new(&mut capturers, settings, VideoCapturerCallbacks::builder().build());
    let capturer = capturers.get(token).unwrap();
    assert_eq!(
        capturer.get_capture_settings(),
        RawCapturerSettings {
            format: codes::OTC_VIDEO_FRAME_FORMAT_NV12,
            width: 640,
            height: 480,
            fps: 15,
            expected_delay: 3,
            mirror_on_local_render: 1,
        }
    );
    assert_eq!(
        capturer.callbacks(),
        CapturerTable {
            init: true,
            destroy: true,
            start: true,
            stop: true,
            get_capture_settings: false,
            user_data: token,
        }
    );
}

#[test]
fn audio_listeners_are_set_once() {
    let (mut device, install) = AudioDevice::new();
    assert_eq!(install, EngineCall::SetAudioDevice);
    let first = AudioDeviceCallbacks { start: Some(1), stop: Some(2) };
    let second = AudioDeviceCallbacks { start: Some(3), stop: None };
    assert_eq!(device.set_render_callbacks(first), Ok(()));
    assert_eq!(
        device.set_render_callbacks(second),
        Err(AudioDeviceError::RenderCallbacksOverrideNotAllowed)
    );
    assert_eq!(device.set_capture_callbacks(second), Ok(()));
    assert_eq!(
        device.set_capture_callbacks(first),
        Err(AudioDeviceError::CaptureCallbacksOverrideNotAllowed)
    );
    assert_eq!(
        device.set_render_callbacks(first),
        Err(AudioDeviceError::RenderCallbacksOverrideNotAllowed)
    );
    assert_eq!(device.serve(AudioDeviceRequest::StartRenderer), (1, Some(1)));
    assert_eq!(device.serve(AudioDeviceRequest::StopRenderer), (1, Some(2)));
    assert_eq!(device.serve(AudioDeviceRequest::StartCapturer), (1, Some(3)));
    assert_eq!(device.serve(AudioDeviceRequest::StopCapturer), (1, None));
}

#[test]
fn a_process_has_one_audio_device() {
    let (mut context, calls) = init();
    assert_eq!(calls[1], EngineCall::SetAudioDevice);
    assert_eq!(AudioDevice::get_instance(&context).round_size(), 441);
    context.audio_device.override_render_settings(AudioDeviceSettings {
        sampling_rate: 16000,
        number_of_channels: 1,
    });
    assert_eq!(AudioDevice::get_instance(&context).round_size(), 160);
}

#[test]
fn audio_samples_are_dropped_until_the_capturer_is_ready() {
    let (mut device, _) = AudioDevice::new();
    assert_eq!(device.push_audio_sample(AudioSampleData(vec![1, 2])), None);
    device.serve(AudioDeviceRequest::StartCapturer);
    assert_eq!(
        device.push_audio_sample(AudioSampleData(vec![1, 2])),
        Some(EngineCall::AudioWriteCaptureData { samples: vec![1, 2] })
    );
    device.serve(AudioDeviceRequest::StopCapturer);
    assert_eq!(device.push_audio_sample(AudioSampleData(vec![1, 2])), None);
}

#[test]
fn render_loop_asks_for_a_hundredth_of_a_second() {
    let (mut device, _) = AudioDevice::new();
    let defaults = AudioDeviceSettings::default();
    assert_eq!(defaults.sampling_rate, 44100);
    assert_eq!(defaults.number_of_channels, 1);
    assert_eq!(device.get_render_settings(), defaults);
    assert_eq!(device.get_capture_settings(), defaults);
    assert_eq!(device.round_size(), 441);
    assert_eq!(device.render_request(), None);
    device.serve(AudioDeviceRequest::StartRenderer);
    assert_eq!(device.render_request(), Some(EngineCall::AudioReadRenderData { count: 441 }));
    device.override_render_settings(AudioDeviceSettings {
        sampling_rate: 48000,
        number_of_channels: 2,
    });
    assert_eq!(device.round_size(), 960);
    assert_eq!(device.get_capture_settings(), defaults);
    device.override_capture_settings(AudioDeviceSettings { sampling_rate: 8000, number_of_channels: 1 });
    assert_eq!(device.get_capture_settings().sampling_rate, 8000);
    device.override_render_settings(AudioDeviceSettings { sampling_rate: -48000, number_of_channels: 2 });
    assert_eq!(device.round_size(), 0);
    device.override_render_settings(AudioDeviceSettings { sampling_rate: 48000, number_of_channels: 0 });
    assert_eq!(device.round_size(), 0);
    device.override_render_settings(AudioDeviceSettings {
        sampling_rate: i32::MAX,
        number_of_channels: i32::MAX,
    });
    assert_eq!(device.round_size(), 21474836u64 * 2147483647u64);
    device.stop();
    assert_eq!(device.render_request(), None);
}

#[test]
fn rendered_samples_reach_every_listener_in_order() {
    let (mut device, _) = AudioDevice::new();
    device.set_on_audio_sample_callback(7);
    device.set_on_audio_sample_callback(3);
    let idle = device.render_round(&vec![]);
    assert!(idle.deliveries.is_empty());
    assert_eq!(idle.pause_micros, RENDER_PERIOD_MICROS);
    let round = device.render_round(&vec![5, -6, 7]);
    assert_eq!(round.pause_micros, RENDER_PERIOD_MICROS);
    assert_eq!(round.pause_micros, 10000);
    assert_eq!(round.deliveries.len(), 2);
    assert_eq!(round.deliveries[0].listener, 7);
    assert_eq!(round.deliveries[1].listener, 3);
    for delivery in &round.deliveries {
        assert_eq!(delivery.sample.data.0, vec![5, -6, 7]);
        assert_eq!(delivery.sample.sampling_rate, 44100);
        assert_eq!(delivery.sample.number_of_channels, 1);
    }
    let table = device.table();
    assert!(table.start_capturer && table.stop_capturer && table.get_capture_settings);
    assert!(table.start_renderer && table.stop_renderer && table.get_render_settings);
}

#[test]
fn deinit_walks_the_registries_in_order() {
    let (mut context, _) = init();
    let session_callbacks = SessionCallbacks::builder().build();
    Session::new(&mut context.sessions, "key", "id", session_callbacks, 0x11).unwrap();
    let gone = Session::new(&mut context.sessions, "key", "id", session_callbacks, 0x12).unwrap();
    Session::new(&mut context.sessions, "key", "id", session_callbacks, 0x13).unwrap();
    context.release_session(gone);
    let publisher_callbacks = PublisherCallbacks::builder().build();
    let first = Publisher::new(&mut context.publishers, None, publisher_callbacks, 0x21).unwrap();
    Publisher::new(&mut context.publishers, None, publisher_callbacks, 0x22).unwrap();
    let third = Publisher::new(&mut context.publishers, None, publisher_callbacks, 0x23).unwrap();
    Publisher::published(&mut context.publishers, third, 0x13, OTC_SUCCESS).unwrap();
    Publisher::published(&mut context.publishers, first, 0x11, OTC_SUCCESS).unwrap();
    context.audio_device.serve(AudioDeviceRequest::StartRenderer);

    assert_eq!(
        deinit(&mut context),
        vec![
            EngineCall::SessionUnpublish { session: 0x11, publisher: 0x21 },
            EngineCall::PublisherDelete { publisher: 0x21 },
            EngineCall::PublisherDelete { publisher: 0x22 },
            EngineCall::SessionUnpublish { session: 0x13, publisher: 0x23 },
            EngineCall::PublisherDelete { publisher: 0x23 },
            EngineCall::SessionDisconnect { session: 0x11 },
            EngineCall::SessionDisconnect { session: 0x13 },
            EngineCall::SessionDelete { session: 0x11 },
            EngineCall::SessionDelete { session: 0x13 },
            EngineCall::Destroy,
        ]
    );
    assert_eq!(context.audio_device.render_request(), None);
    assert!(!context.sessions.is_registered(0x11));
    assert!(!context.sessions.is_registered(0x13));
    assert_eq!(context.publishers.registered(), Vec::<usize>::new());
    assert_eq!(context.sessions.registered(), Vec::<usize>::new());
    assert_eq!(context.publishers.get(first).unwrap().inner(), 0);
    assert_eq!(context.release_publisher(first), vec![]);
    assert_eq!(deinit(&mut context), vec![EngineCall::Destroy]);
    let (mut empty, _) = init();
    assert_eq!(deinit(&mut empty), vec![EngineCall::Destroy]);
}
