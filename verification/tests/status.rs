use opentok::enums::{
    IntoResult, OtcBool, OtcError, OTC_CAMERA_FAILED, OTC_CONNECTION_DROPPED,
    OTC_CONNECTION_TIMED_OUT, OTC_FATAL, OTC_INVALID_PARAM, OTC_SUCCESS,
    OTC_UNKNOWN_PUBLISHER_INSTANCE, OTC_UNKNOWN_SUBSCRIBER_INSTANCE, OTC_VIDEO_CAPTURE_FAILED,
    OTC_VIDEO_RENDER_FAILED, OT_UNABLE_TO_ACCESS_MEDIA_ENGINE,
};

#[test]
fn success_status_is_ok() {
    assert_eq!(OTC_SUCCESS.into_result(), Ok(()));
}

#[test]
fn known_error_statuses_are_typed() {
    assert_eq!(OTC_INVALID_PARAM.into_result(), Err(OtcError::InvalidParam("")));
    assert_eq!(OTC_FATAL.into_result(), Err(OtcError::Fatal));
    assert_eq!(OTC_CONNECTION_DROPPED.into_result(), Err(OtcError::ConnectionDropped));
}

#[test]
fn unknown_and_negative_statuses_are_unknown() {
    assert_eq!(7777.into_result(), Err(OtcError::__Unknown));
    assert_eq!((-1).into_result(), Err(OtcError::__Unknown));
}

#[test]
fn engine_boolean_round_trip() {
    assert_eq!(OtcBool::from_bool(true).raw(), 1);
    assert_eq!(OtcBool::from_bool(false).raw(), 0);
    assert!(OtcBool(5).value());
    assert!(!OtcBool(0).value());
    assert_eq!(OtcBool::from_result(Ok(())).raw(), 1);
    assert_eq!(OtcBool::from_result(Err(OtcError::Fatal)).raw(), 0);
    assert_eq!(OtcBool::from(true).0, 1);
    assert_eq!(OtcBool::from(false).0, 0);
    assert_eq!(OtcBool::from(Ok(())).0, 1);
    assert_eq!(OtcBool::from(Err(OtcError::TimedOut)).0, 0);
}

#[test]
fn every_status_code_has_its_kind() {
    assert_eq!(OTC_CONNECTION_TIMED_OUT.into_result(), Err(OtcError::TimedOut));
    assert_eq!(
        OTC_UNKNOWN_PUBLISHER_INSTANCE.into_result(),
        Err(OtcError::UnknownPublisherInstance)
    );
    assert_eq!(
        OTC_UNKNOWN_SUBSCRIBER_INSTANCE.into_result(),
        Err(OtcError::UnknownSubscriberInstance)
    );
    assert_eq!(OTC_VIDEO_CAPTURE_FAILED.into_result(), Err(OtcError::VideoCaptureFailed));
    assert_eq!(OTC_CAMERA_FAILED.into_result(), Err(OtcError::CameraFailed));
    assert_eq!(OTC_VIDEO_RENDER_FAILED.into_result(), Err(OtcError::VideoRenderFailed));
    assert_eq!(
        OT_UNABLE_TO_ACCESS_MEDIA_ENGINE.into_result(),
        Err(OtcError::UnableToAccessMediaEngine)
    );
}
