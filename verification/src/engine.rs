//! The requests that this crate asks its host to make of the engine.
//!
//! A request names native objects by their identity keys. The host performs it
//! and hands the engine's answer back as a plain value.

use vstd::prelude::*;
use vstd::string::StringSliceAdditionalSpecFns;
use crate::enums::OtcError;

verus! {

/// One request to the engine.
#[derive(Clone, Debug, PartialEq, Eq)]
#[allow(inconsistent_fields)]
pub enum EngineCall {
    /// Start the engine.
    Init,
    /// Release the engine.
    Destroy,
    /// Switch logging to the level with this code.
    LogEnable { level: u32 },
    /// Route log messages to the registered logger callbacks.
    SetLoggerCallback,
    /// Install the audio device's dispatch table.
    SetAudioDevice,
    /// Hand captured audio samples to the engine.
    AudioWriteCaptureData { samples: Vec<i16> },
    /// Ask the engine for up to `count` rendered audio samples.
    AudioReadRenderData { count: u64 },
    SessionNew { api_key: String, session_id: String },
    SessionConnect { session: usize, token: String },
    SessionDisconnect { session: usize },
    SessionPublish { session: usize, publisher: usize },
    SessionUnpublish { session: usize, publisher: usize },
    SessionSubscribe { session: usize, subscriber: usize },
    SessionUnsubscribe { session: usize, subscriber: usize },
    SessionDelete { session: usize },
    /// Create a publisher, with the dispatch table of the capturer that carries
    /// this token, if any.
    PublisherNew { name: String, capturer: Option<usize> },
    PublisherSetPublishAudio { publisher: usize, enabled: bool },
    PublisherSetPublishVideo { publisher: usize, enabled: bool },
    PublisherGetStream { publisher: usize },
    PublisherGetSession { publisher: usize },
    PublisherDelete { publisher: usize },
    SubscriberNew { stream: usize },
    SubscriberSetSubscribeToVideo { subscriber: usize, enabled: bool },
    SubscriberSetSubscribeToAudio { subscriber: usize, enabled: bool },
    SubscriberGetSubscribeToVideo { subscriber: usize },
    SubscriberGetSubscribeToAudio { subscriber: usize },
    SubscriberSetPreferredResolution { subscriber: usize, width: u32, height: u32 },
    SubscriberGetPreferredResolution { subscriber: usize },
    /// Set the preferred frame rate, given as the bits of a 32-bit float.
    SubscriberSetPreferredFramerate { subscriber: usize, framerate_bits: u32 },
    SubscriberGetPreferredFramerate { subscriber: usize },
    SubscriberGetSession { subscriber: usize },
    SubscriberDelete { subscriber: usize },
    VideoCapturerProvideFrame { capturer: usize, rotation: i32, frame: usize },
    StreamCopy { stream: usize },
    StreamDelete { stream: usize },
    ConnectionCopy { connection: usize },
    ConnectionDelete { connection: usize },
    VideoFrameNew { format: u32, width: i32, height: i32, buffer: Vec<u8> },
    VideoFrameNewMjpeg { width: i32, height: i32, buffer: Vec<u8>, size: u64 },
    VideoFrameNewCompressed { width: i32, height: i32, buffer: Vec<u8>, size: u64 },
    VideoFrameCopy { frame: usize },
    VideoFrameConvert { format: u32, frame: usize },
    VideoFrameSetTimestamp { frame: usize, timestamp: i64 },
    VideoFrameSetFormat { frame: usize, format: u32 },
    VideoFrameDelete { frame: usize },
}

/// What a refused native copy leaves behind: the error, and the requests that
/// give back what came with it.
#[derive(Debug)]
pub struct Rejected {
    pub error: OtcError,
    pub discard: Vec<EngineCall>,
}

/// Whether a text can be handed to the engine as a C string: it can unless one
/// of its bytes is zero.
pub open spec fn c_compatible(text: &str) -> bool {
    !text.spec_bytes().contains(0u8)
}

/// Checks that no byte of the text is zero.
pub fn is_c_compatible(text: &str) -> (ok: bool)
    ensures
        ok == c_compatible(text),
{
    let bytes = text.as_bytes();
    let mut i: usize = 0;
    while i < bytes.len()
        invariant
            i <= bytes@.len(),
            bytes@ == text.spec_bytes(),
            forall|j: int| 0 <= j < i ==> bytes@[j] != 0u8,
        decreases bytes@.len() - i,
    {
        if bytes[i] == 0 {
            return false;
        }
        i += 1;
    }
    true
}

} // verus!
