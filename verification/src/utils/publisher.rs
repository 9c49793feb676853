//! The settings of a publishing client, and the address of what it publishes.

use vstd::prelude::*;
use vstd::string::StringExecFns;
use crate::utils::common::Credentials;

verus! {

/// The time between two pulls of captured audio, in microseconds.
pub const AUDIO_PULL_PERIOD_MICROS: u64 = 10000;

/// The time between two captured video frames, in microseconds.
pub const VIDEO_FRAME_PERIOD_MICROS: u64 = 30000;

/// The name under which the client publishes.
pub const PUBLISHER_NAME: &'static str = "publisher";

/// A client that publishes to a session.
#[derive(Clone, Debug)]
pub struct Publisher {
    credentials: Credentials,
    duration: Option<u64>,
}

/// The address of a published stream:
/// `opentok://<session>/<stream>?key=<api key>&token=<token>`.
pub open spec fn stream_url(
    session_id: Seq<char>,
    stream_id: Seq<char>,
    api_key: Seq<char>,
    token: Seq<char>,
) -> Seq<char> {
    "opentok://"@ + session_id + "/"@ + stream_id + "?key="@ + api_key + "&token="@ + token
}

impl Publisher {
    pub closed spec fn credentials(self) -> Credentials {
        self.credentials
    }

    /// For how many seconds the client runs; without a limit it runs until it
    /// is stopped.
    pub closed spec fn duration(self) -> Option<u64> {
        self.duration
    }

    pub fn new(credentials: Credentials, duration: Option<u64>) -> (publisher: Publisher)
        ensures
            publisher.credentials() == credentials,
            publisher.duration() == duration,
    {
        Publisher { credentials, duration }
    }

    /// For how many seconds the client runs.
    pub fn run_for(&self) -> (duration: Option<u64>)
        ensures
            duration == self.duration(),
    {
        self.duration
    }

    pub fn get_credentials(&self) -> (credentials: &Credentials)
        ensures
            *credentials == self.credentials(),
    {
        &self.credentials
    }

    /// The address of the stream with this identifier, once the client
    /// publishes it.
    pub fn url(&self, stream_id: &str) -> (url: String)
        ensures
            url@ == stream_url(
                self.credentials().session_id@,
                stream_id@,
                self.credentials().api_key@,
                self.credentials().token@,
            ),
    {
        let mut url = String::from_str("opentok://");
        url.append(self.credentials.session_id.as_str());
        url.append("/");
        url.append(stream_id);
        url.append("?key=");
        url.append(self.credentials.api_key.as_str());
        url.append("&token=");
        url.append(self.credentials.token.as_str());
        url
    }
}

} // verus!
