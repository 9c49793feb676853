//! The engine's numeric codes, as its header declares them. Everything else in
//! the crate speaks of these names only.

use vstd::prelude::*;

verus! {

pub const OTC_LOG_LEVEL_DISABLED: u32 = 0;
pub const OTC_LOG_LEVEL_FATAL: u32 = 2;
pub const OTC_LOG_LEVEL_ERROR: u32 = 3;
pub const OTC_LOG_LEVEL_WARN: u32 = 4;
pub const OTC_LOG_LEVEL_INFO: u32 = 5;
pub const OTC_LOG_LEVEL_DEBUG: u32 = 6;
pub const OTC_LOG_LEVEL_MSG: u32 = 7;
pub const OTC_LOG_LEVEL_TRACE: u32 = 8;
pub const OTC_LOG_LEVEL_ALL: u32 = 100;

pub const OTC_SESSION_AUTHORIZATION_FAILURE: u32 = 1004;
pub const OTC_SESSION_BLOCKED_COUNTRY: u32 = 1026;
pub const OTC_SESSION_CONNECTION_DROPPED: u32 = 1022;
pub const OTC_SESSION_CONNECTION_FAILED: u32 = 1006;
pub const OTC_SESSION_CONNECTION_LIMIT_EXCEEDED: u32 = 1027;
pub const OTC_SESSION_CONNECTION_REFUSED: u32 = 1023;
pub const OTC_SESSION_CONNECTION_TIMED_OUT: u32 = 1021;
pub const OTC_SESSION_FORCE_UNPUBLISH_OR_INVALID_STREAM: u32 = 1535;
pub const OTC_SESSION_ILLEGAL_STATE: u32 = 1015;
pub const OTC_SESSION_INTERNAL_ERROR: u32 = 2000;
pub const OTC_SESSION_INVALID_SESSION: u32 = 1005;
pub const OTC_SESSION_INVALID_SIGNAL_TYPE: u32 = 1461;
pub const OTC_SESSION_NOT_CONNECTED: u32 = 1010;
pub const OTC_SESSION_NO_MESSAGING_SERVER: u32 = 1503;
pub const OTC_SESSION_NULL_OR_INVALID_PARAMETER: u32 = 1011;
pub const OTC_SESSION_PUBLISHER_NOT_FOUND: u32 = 1113;
pub const OTC_SESSION_SIGNAL_DATA_TOO_LONG: u32 = 1413;
pub const OTC_SESSION_SIGNAL_TYPE_TOO_LONG: u32 = 1414;
pub const OTC_SESSION_STATE_FAILED: u32 = 1020;
pub const OTC_SESSION_SUBSCRIBER_NOT_FOUND: u32 = 1112;
pub const OTC_SESSION_UNEXPECTED_GET_SESSION_INFO_REPONSE: u32 = 2001;

pub const OTC_PUBLISHER_INTERNAL_ERROR: u32 = 2000;
pub const OTC_PUBLISHER_SESSION_DISCONNECTED: u32 = 1010;
pub const OTC_PUBLISHER_TIMED_OUT: u32 = 1541;
pub const OTC_PUBLISHER_UNABLE_TO_PUBLISH: u32 = 1500;
pub const OTC_PUBLISHER_WEBRTC_ERROR: u32 = 1610;

pub const OTC_SUBSCRIBER_INTERNAL_ERROR: u32 = 2000;
pub const OTC_SUBSCRIBER_SESSION_DISCONNECTED: u32 = 1541;
pub const OTC_SUBSCRIBER_SERVER_CANNOT_FIND_STREAM: u32 = 1604;
pub const OTC_SUBSCRIBER_STREAM_LIMIT_EXCEEDED: u32 = 1605;
pub const OTC_SUBSCRIBER_TIMED_OUT: u32 = 1542;
pub const OTC_SUBSCRIBER_WEBRTC_ERROR: u32 = 1600;

pub const OTC_VIDEO_REASON_PUBLISH_VIDEO: u32 = 1;
pub const OTC_VIDEO_REASON_SUBSCRIBE_TO_VIDEO: u32 = 2;
pub const OTC_VIDEO_REASON_QUALITY: u32 = 3;
pub const OTC_VIDEO_REASON_CODEC_NOT_SUPPORTED: u32 = 4;

pub const OTC_STREAM_VIDEO_TYPE_CAMERA: u32 = 1;
pub const OTC_STREAM_VIDEO_TYPE_SCREEN: u32 = 2;
pub const OTC_STREAM_VIDEO_TYPE_CUSTOM: u32 = 3;

pub const OTC_VIDEO_FRAME_FORMAT_UNKNOWN: u32 = 0;
pub const OTC_VIDEO_FRAME_FORMAT_YUV420P: u32 = 1;
pub const OTC_VIDEO_FRAME_FORMAT_NV12: u32 = 2;
pub const OTC_VIDEO_FRAME_FORMAT_NV21: u32 = 3;
pub const OTC_VIDEO_FRAME_FORMAT_YUY2: u32 = 4;
pub const OTC_VIDEO_FRAME_FORMAT_UYVY: u32 = 5;
pub const OTC_VIDEO_FRAME_FORMAT_ARGB32: u32 = 6;
pub const OTC_VIDEO_FRAME_FORMAT_BGRA32: u32 = 7;
pub const OTC_VIDEO_FRAME_FORMAT_ABGR32: u32 = 8;
pub const OTC_VIDEO_FRAME_FORMAT_MJPEG: u32 = 9;
pub const OTC_VIDEO_FRAME_FORMAT_RGBA32: u32 = 10;
pub const OTC_VIDEO_FRAME_FORMAT_MAX: u32 = 11;
pub const OTC_VIDEO_FRAME_FORMAT_RGB24: u32 = 12;
pub const OTC_VIDEO_FRAME_FORMAT_COMPRESSED: u32 = 255;

pub const OTC_VIDEO_FRAME_PLANE_Y: u32 = 0;
pub const OTC_VIDEO_FRAME_PLANE_U: u32 = 1;
pub const OTC_VIDEO_FRAME_PLANE_V: u32 = 2;
pub const OTC_VIDEO_FRAME_PLANE_PACKED: u32 = 3;
pub const OTC_VIDEO_FRAME_PLANE_UV_INTERLEAVED: u32 = 4;
pub const OTC_VIDEO_FRAME_PLANE_VU_INTERLEAVED: u32 = 5;

} // verus!
