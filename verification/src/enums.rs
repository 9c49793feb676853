//! Status decoding: the engine's integer status codes and the closed set of
//! error kinds that every call site returns.

use vstd::prelude::*;
use vstd::std_specs::convert::FromSpecImpl;

verus! {

/// Status code of a request that the engine accepted.
pub const OTC_SUCCESS: i32 = 0;

/// Status code: an argument of the call is not valid.
pub const OTC_INVALID_PARAM: i32 = 1;

/// Status code: generic failure.
pub const OTC_FATAL: i32 = 2;

/// Status code: the connection to the messaging server was dropped.
pub const OTC_CONNECTION_DROPPED: i32 = 1022;

/// Status code: a connect action timed out.
pub const OTC_CONNECTION_TIMED_OUT: i32 = 1542;

/// Status code: the publisher handed in is not known to the engine.
pub const OTC_UNKNOWN_PUBLISHER_INSTANCE: i32 = 2003;

/// Status code: the subscriber handed in is not known to the engine.
pub const OTC_UNKNOWN_SUBSCRIBER_INSTANCE: i32 = 2004;

/// Status code: the video capturer failed.
pub const OTC_VIDEO_CAPTURE_FAILED: i32 = 3000;

/// Status code: acquiring video from the camera failed.
pub const OTC_CAMERA_FAILED: i32 = 3010;

/// Status code: rendering video failed.
pub const OTC_VIDEO_RENDER_FAILED: i32 = 4000;

/// Status code: the media engine could not be reached.
pub const OT_UNABLE_TO_ACCESS_MEDIA_ENGINE: i32 = 5000;

/// Error kinds returned by every method that issues a request to the engine.
#[derive(Clone, Copy, Debug, PartialEq, Eq, Hash)]
#[must_use]
pub enum OtcError {
    /// The named argument of a call is not valid.
    InvalidParam(&'static str),
    /// Generic error.
    Fatal,
    /// The connection to the messaging server was dropped.
    ConnectionDropped,
    /// Timeout while performing a connect action.
    TimedOut,
    /// An unknown publisher was used as an argument.
    UnknownPublisherInstance,
    /// An unknown subscriber was used as an argument.
    UnknownSubscriberInstance,
    /// The video capturer failed.
    VideoCaptureFailed,
    /// Acquiring video from the camera failed.
    CameraFailed,
    /// Rendering video failed.
    VideoRenderFailed,
    /// The media engine could not be reached.
    UnableToAccessMediaEngine,
    /// A handle that the call needs is null.
    NullError,
    /// The named part was already initialized.
    AlreadyInitialized(&'static str),
    /// The named part could not be initialized, for the reason given.
    Initialization(&'static str, &'static str),
    /// A status code outside the known set.
    __Unknown,
}

/// Result of a request whose only answer is a status.
pub type OtcResult = Result<(), OtcError>;

/// What a status code of the engine means.
pub open spec fn status_result(code: int) -> OtcResult {
    if code == OTC_SUCCESS {
        Ok(())
    } else if code == OTC_INVALID_PARAM {
        Err(OtcError::InvalidParam(""))
    } else if code == OTC_FATAL {
        Err(OtcError::Fatal)
    } else if code == OTC_CONNECTION_DROPPED {
        Err(OtcError::ConnectionDropped)
    } else if code == OTC_CONNECTION_TIMED_OUT {
        Err(OtcError::TimedOut)
    } else if code == OTC_UNKNOWN_PUBLISHER_INSTANCE {
        Err(OtcError::UnknownPublisherInstance)
    } else if code == OTC_UNKNOWN_SUBSCRIBER_INSTANCE {
        Err(OtcError::UnknownSubscriberInstance)
    } else if code == OTC_VIDEO_CAPTURE_FAILED {
        Err(OtcError::VideoCaptureFailed)
    } else if code == OTC_CAMERA_FAILED {
        Err(OtcError::CameraFailed)
    } else if code == OTC_VIDEO_RENDER_FAILED {
        Err(OtcError::VideoRenderFailed)
    } else if code == OT_UNABLE_TO_ACCESS_MEDIA_ENGINE {
        Err(OtcError::UnableToAccessMediaEngine)
    } else {
        Err(OtcError::__Unknown)
    }
}

/// Conversion of a raw status into a typed result.
pub trait IntoResult: Sized {
    /// The result that the status stands for.
    spec fn as_result(self) -> OtcResult;

    fn into_result(self) -> (r: OtcResult)
        ensures
            r == self.as_result(),
    ;
}

impl IntoResult for i32 {
    open spec fn as_result(self) -> OtcResult {
        status_result(self as int)
    }

    fn into_result(self) -> (r: OtcResult) {
        if self == OTC_SUCCESS {
            Ok(())
        } else if self == OTC_INVALID_PARAM {
            Err(OtcError::InvalidParam(""))
        } else if self == OTC_FATAL {
            Err(OtcError::Fatal)
        } else if self == OTC_CONNECTION_DROPPED {
            Err(OtcError::ConnectionDropped)
        } else if self == OTC_CONNECTION_TIMED_OUT {
            Err(OtcError::TimedOut)
        } else if self == OTC_UNKNOWN_PUBLISHER_INSTANCE {
            Err(OtcError::UnknownPublisherInstance)
        } else if self == OTC_UNKNOWN_SUBSCRIBER_INSTANCE {
            Err(OtcError::UnknownSubscriberInstance)
        } else if self == OTC_VIDEO_CAPTURE_FAILED {
            Err(OtcError::VideoCaptureFailed)
        } else if self == OTC_CAMERA_FAILED {
            Err(OtcError::CameraFailed)
        } else if self == OTC_VIDEO_RENDER_FAILED {
            Err(OtcError::VideoRenderFailed)
        } else if self == OT_UNABLE_TO_ACCESS_MEDIA_ENGINE {
            Err(OtcError::UnableToAccessMediaEngine)
        } else {
            Err(OtcError::__Unknown)
        }
    }
}

/// The engine's boolean: an integer that is false when zero and true otherwise.
#[derive(Clone, Copy, Debug)]
pub struct OtcBool(pub i32);

impl OtcBool {
    /// The truth value that the integer stands for.
    pub open spec fn truth(self) -> bool {
        self.0 != 0
    }

    /// Reads the integer as a truth value.
    pub fn value(&self) -> (b: bool)
        ensures
            b == self.truth(),
    {
        self.0 != 0
    }

    /// The engine's boolean for a truth value: one for true, zero for false.
    pub fn from_bool(value: bool) -> (b: OtcBool)
        ensures
            b.0 == (if value { 1i32 } else { 0i32 }),
            b.truth() == value,
    {
        if value {
            OtcBool(1)
        } else {
            OtcBool(0)
        }
    }

    /// The engine's boolean that reports whether a request succeeded.
    pub fn from_result(result: OtcResult) -> (b: OtcBool)
        ensures
            b.0 == (if result is Ok { 1i32 } else { 0i32 }),
            b.truth() == (result is Ok),
    {
        match result {
            Ok(_) => OtcBool(1),
            Err(_) => OtcBool(0),
        }
    }

    /// The engine's boolean for a truth value, as an integer.
    pub open spec fn of_bool(value: bool) -> OtcBool {
        OtcBool(if value { 1i32 } else { 0i32 })
    }

    /// The raw integer to hand to the engine.
    pub fn raw(self) -> (r: i32)
        ensures
            r == self.0,
    {
        self.0
    }
}

impl From<bool> for OtcBool {
    fn from(value: bool) -> (b: OtcBool) {
        OtcBool::from_bool(value)
    }
}

impl FromSpecImpl<bool> for OtcBool {
    open spec fn obeys_from_spec() -> bool {
        true
    }

    open spec fn from_spec(value: bool) -> OtcBool {
        OtcBool::of_bool(value)
    }
}

impl From<OtcResult> for OtcBool {
    fn from(result: OtcResult) -> (b: OtcBool) {
        OtcBool::from_result(result)
    }
}

impl FromSpecImpl<OtcResult> for OtcBool {
    open spec fn obeys_from_spec() -> bool {
        true
    }

    open spec fn from_spec(result: OtcResult) -> OtcBool {
        OtcBool::of_bool(result is Ok)
    }
}

} // verus!
