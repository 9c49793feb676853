use opentok::codes;
use opentok::log::LogLevel;
use opentok::publisher::PublisherError;
use opentok::session::SessionError;
use opentok::stream::StreamVideoType;
use opentok::subscriber::{SubscriberError, VideoReason};
use opentok::video_frame::{FrameFormat, FramePlane};

#[test]
fn session_error_codes_are_decoded() {
    assert_eq!(
        SessionError::from(codes::OTC_SESSION_AUTHORIZATION_FAILURE),
        SessionError::AuthorizationFailure
    );
    assert_eq!(
        SessionError::from(codes::OTC_SESSION_CONNECTION_LIMIT_EXCEEDED),
        SessionError::ConnectionLimitExceeded
    );
    assert_eq!(
        SessionError::from(codes::OTC_SESSION_INVALID_SESSION),
        SessionError::InvalidSession
    );
    assert_eq!(
        SessionError::from(codes::OTC_SESSION_UNEXPECTED_GET_SESSION_INFO_REPONSE),
        SessionError::UnexpectedGetSessionInfoResponse
    );
    assert_eq!(SessionError::from(1), SessionError::__Unknown);
    assert_eq!(SessionError::from(u32::MAX), SessionError::__Unknown);
}

#[test]
fn every_session_error_code_has_its_own_kind() {
    let all = [
        codes::OTC_SESSION_AUTHORIZATION_FAILURE,
        codes::OTC_SESSION_BLOCKED_COUNTRY,
        codes::OTC_SESSION_CONNECTION_DROPPED,
        codes::OTC_SESSION_CONNECTION_FAILED,
        codes::OTC_SESSION_CONNECTION_LIMIT_EXCEEDED,
        codes::OTC_SESSION_CONNECTION_REFUSED,
        codes::OTC_SESSION_CONNECTION_TIMED_OUT,
        codes::OTC_SESSION_FORCE_UNPUBLISH_OR_INVALID_STREAM,
        codes::OTC_SESSION_ILLEGAL_STATE,
        codes::OTC_SESSION_INTERNAL_ERROR,
        codes::OTC_SESSION_INVALID_SESSION,
        codes::OTC_SESSION_INVALID_SIGNAL_TYPE,
        codes::OTC_SESSION_NOT_CONNECTED,
        codes::OTC_SESSION_NO_MESSAGING_SERVER,
        codes::OTC_SESSION_NULL_OR_INVALID_PARAMETER,
        codes::OTC_SESSION_PUBLISHER_NOT_FOUND,
        codes::OTC_SESSION_SIGNAL_DATA_TOO_LONG,
        codes::OTC_SESSION_SIGNAL_TYPE_TOO_LONG,
        codes::OTC_SESSION_STATE_FAILED,
        codes::OTC_SESSION_SUBSCRIBER_NOT_FOUND,
        codes::OTC_SESSION_UNEXPECTED_GET_SESSION_INFO_REPONSE,
    ];
    for (i, a) in all.iter().enumerate() {
        assert_ne!(SessionError::from(*a), SessionError::__Unknown);
        for b in all.iter().skip(i + 1) {
            assert_ne!(SessionError::from(*a), SessionError::from(*b));
        }
    }
}

#[test]
fn publisher_error_codes_are_decoded() {
    assert_eq!(PublisherError::from(codes::OTC_PUBLISHER_INTERNAL_ERROR), PublisherError::Internal);
    assert_eq!(
        PublisherError::from(codes::OTC_PUBLISHER_SESSION_DISCONNECTED),
        PublisherError::SessionDisconnected
    );
    assert_eq!(PublisherError::from(codes::OTC_PUBLISHER_TIMED_OUT), PublisherError::TimedOut);
    assert_eq!(
        PublisherError::from(codes::OTC_PUBLISHER_UNABLE_TO_PUBLISH),
        PublisherError::UnableToPublish
    );
    assert_eq!(PublisherError::from(codes::OTC_PUBLISHER_WEBRTC_ERROR), PublisherError::WebRtcError);
    assert_eq!(PublisherError::from(3), PublisherError::__Unknown);
}

#[test]
fn subscriber_error_codes_are_decoded() {
    assert_eq!(SubscriberError::from(codes::OTC_SUBSCRIBER_INTERNAL_ERROR), SubscriberError::Internal);
    assert_eq!(
        SubscriberError::from(codes::OTC_SUBSCRIBER_SESSION_DISCONNECTED),
        SubscriberError::SessionDisconnected
    );
    assert_eq!(
        SubscriberError::from(codes::OTC_SUBSCRIBER_SERVER_CANNOT_FIND_STREAM),
        SubscriberError::ServerCannotFindStream
    );
    assert_eq!(
        SubscriberError::from(codes::OTC_SUBSCRIBER_STREAM_LIMIT_EXCEEDED),
        SubscriberError::StreamLimitExceeded
    );
    assert_eq!(SubscriberError::from(codes::OTC_SUBSCRIBER_TIMED_OUT), SubscriberError::TimedOut);
    assert_eq!(SubscriberError::from(codes::OTC_SUBSCRIBER_WEBRTC_ERROR), SubscriberError::WebRtcError);
    assert_eq!(SubscriberError::from(0), SubscriberError::__Unknown);
}

#[test]
fn video_reasons_and_stream_kinds_are_decoded() {
    assert_eq!(VideoReason::from(codes::OTC_VIDEO_REASON_PUBLISH_VIDEO), VideoReason::Publish);
    assert_eq!(VideoReason::from(codes::OTC_VIDEO_REASON_SUBSCRIBE_TO_VIDEO), VideoReason::Subscribe);
    assert_eq!(VideoReason::from(codes::OTC_VIDEO_REASON_QUALITY), VideoReason::Quality);
    assert_eq!(
        VideoReason::from(codes::OTC_VIDEO_REASON_CODEC_NOT_SUPPORTED),
        VideoReason::CodecNotSupported
    );
    assert_eq!(VideoReason::from(99), VideoReason::__Unknown);
    assert_eq!(StreamVideoType::from(codes::OTC_STREAM_VIDEO_TYPE_CAMERA), StreamVideoType::Camera);
    assert_eq!(StreamVideoType::from(codes::OTC_STREAM_VIDEO_TYPE_SCREEN), StreamVideoType::Screen);
    assert_eq!(StreamVideoType::from(codes::OTC_STREAM_VIDEO_TYPE_CUSTOM), StreamVideoType::Custom);
    assert_eq!(StreamVideoType::from(99), StreamVideoType::__Unknown);
}

#[test]
fn frame_formats_survive_the_round_trip() {
    let all = [
        FrameFormat::Abgr32,
        FrameFormat::Argb32,
        FrameFormat::Bgra32,
        FrameFormat::Compressed,
        FrameFormat::Max,
        FrameFormat::Mjpeg,
        FrameFormat::Nv12,
        FrameFormat::Nv21,
        FrameFormat::Rgba32,
        FrameFormat::Rgb24,
        FrameFormat::Uyvy,
        FrameFormat::Yuv420P,
        FrameFormat::Yuy2,
    ];
    for format in all {
        assert_eq!(FrameFormat::from(format.code()), format);
    }
    assert_eq!(FrameFormat::__Unknown.code(), codes::OTC_VIDEO_FRAME_FORMAT_UNKNOWN);
    assert_eq!(FrameFormat::from(codes::OTC_VIDEO_FRAME_FORMAT_UNKNOWN), FrameFormat::__Unknown);
    assert_eq!(FrameFormat::from(77), FrameFormat::__Unknown);
}

#[test]
fn frame_planes_survive_the_round_trip() {
    let all = [
        FramePlane::Packed,
        FramePlane::U,
        FramePlane::UvInterleaved,
        FramePlane::V,
        FramePlane::VuInterleaved,
        FramePlane::Y,
    ];
    for plane in all {
        assert_eq!(FramePlane::from(plane.code()), plane);
    }
    assert_eq!(FramePlane::__Unknown.code(), u32::MAX);
    assert_eq!(FramePlane::from(u32::MAX), FramePlane::__Unknown);
}

#[test]
fn log_levels_survive_the_round_trip() {
    let all = [
        LogLevel::Disabled,
        LogLevel::Fatal,
        LogLevel::Error,
        LogLevel::Warn,
        LogLevel::Info,
        LogLevel::Debug,
        LogLevel::Message,
        LogLevel::Trace,
        LogLevel::All,
    ];
    for level in all {
        assert_eq!(LogLevel::from(level.code()), level);
    }
    assert_eq!(LogLevel::from(55), LogLevel::__Unknown(55));
    assert_eq!(LogLevel::__Unknown(55).code(), codes::OTC_LOG_LEVEL_DISABLED);
}
