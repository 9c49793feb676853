//! A published media stream, as an independently owned snapshot.

use vstd::prelude::*;
use vstd::std_specs::convert::FromSpecImpl;
use crate::codes;
use crate::connection::{Connection, RawConnection};
use crate::engine::{EngineCall, Rejected};
use crate::enums::{OtcBool, OtcError};
use crate::handle::NativeHandle;

verus! {

/// The kinds of video stream.
#[derive(Clone, Copy, Debug, PartialEq, Eq)]
pub enum StreamVideoType {
    /// Video from a camera.
    Camera,
    /// Video from a screen capture.
    Screen,
    /// A custom video stream.
    Custom,
    /// A code outside the known set.
    __Unknown,
}

/// The kind of video that a code of the engine stands for.
pub open spec fn stream_video_type_of(code: u32) -> StreamVideoType {
    if code == codes::OTC_STREAM_VIDEO_TYPE_CAMERA {
        StreamVideoType::Camera
    } else if code == codes::OTC_STREAM_VIDEO_TYPE_SCREEN {
        StreamVideoType::Screen
    } else if code == codes::OTC_STREAM_VIDEO_TYPE_CUSTOM {
        StreamVideoType::Custom
    } else {
        StreamVideoType::__Unknown
    }
}

impl From<u32> for StreamVideoType {
    fn from(code: u32) -> (kind: StreamVideoType) {
        if code == codes::OTC_STREAM_VIDEO_TYPE_CAMERA {
            StreamVideoType::Camera
        } else if code == codes::OTC_STREAM_VIDEO_TYPE_SCREEN {
            StreamVideoType::Screen
        } else if code == codes::OTC_STREAM_VIDEO_TYPE_CUSTOM {
            StreamVideoType::Custom
        } else {
            StreamVideoType::__Unknown
        }
    }
}

impl FromSpecImpl<u32> for StreamVideoType {
    open spec fn obeys_from_spec() -> bool {
        true
    }

    open spec fn from_spec(code: u32) -> StreamVideoType {
        stream_video_type_of(code)
    }
}
/// What the host read through the engine's accessors from its own copy of a
/// stream: the copy's pointer and the values behind it, flags and kind still in
/// the engine's encoding. The pointer is zero when the engine supplied none.
#[derive(Debug)]
pub struct RawStream {
    pub addr: usize,
    pub id: String,
    pub name: String,
    pub has_video: i32,
    pub has_video_track: i32,
    pub has_audio: i32,
    pub has_audio_track: i32,
    pub video_width: i32,
    pub video_height: i32,
    pub creation_time: i64,
    pub video_type: u32,
    pub connection: RawConnection,
}

/// A stream: its values at the time it was received, together with the owned
/// native copy that they were read from.
#[derive(Debug)]
pub struct Stream {
    handle: NativeHandle,
    id: String,
    name: String,
    has_video: bool,
    has_video_track: bool,
    has_audio: bool,
    has_audio_track: bool,
    video_width: i32,
    video_height: i32,
    creation_time: i64,
    video_type: StreamVideoType,
    connection: Connection,
}

/// The plain values of a stream.
pub struct StreamValues {
    pub id: Seq<char>,
    pub name: Seq<char>,
    pub has_video: bool,
    pub has_video_track: bool,
    pub has_audio: bool,
    pub has_audio_track: bool,
    pub video_width: i32,
    pub video_height: i32,
    pub creation_time: i64,
    pub video_type: StreamVideoType,
}

/// The values that a raw snapshot stands for: an engine boolean is true unless
/// it is zero, and the kind of video is decoded.
pub open spec fn stream_values_of(raw: RawStream) -> StreamValues {
    StreamValues {
        id: raw.id@,
        name: raw.name@,
        has_video: raw.has_video != 0,
        has_video_track: raw.has_video_track != 0,
        has_audio: raw.has_audio != 0,
        has_audio_track: raw.has_audio_track != 0,
        video_width: raw.video_width,
        video_height: raw.video_height,
        creation_time: raw.creation_time,
        video_type: stream_video_type_of(raw.video_type),
    }
}

impl Stream {
    pub closed spec fn native(self) -> NativeHandle {
        self.handle
    }

    /// The values that the getters report.
    pub closed spec fn values(self) -> StreamValues {
        StreamValues {
            id: self.id@,
            name: self.name@,
            has_video: self.has_video,
            has_video_track: self.has_video_track,
            has_audio: self.has_audio,
            has_audio_track: self.has_audio_track,
            video_width: self.video_width,
            video_height: self.video_height,
            creation_time: self.creation_time,
            video_type: self.video_type,
        }
    }

    /// The connection of the client that publishes the stream.
    pub closed spec fn connection(self) -> Connection {
        self.connection
    }

    /// The snapshot holds exactly what was read, and owns the copies.
    pub open spec fn mirrors(self, raw: RawStream) -> bool {
        &&& self.native().key() == raw.addr
        &&& self.native().owned()
        &&& self.values() == stream_values_of(raw)
        &&& self.connection().mirrors(raw.connection)
    }

    #[verifier::type_invariant]
    spec fn owns_its_copy(self) -> bool {
        self.handle.owned()
    }

    /// The snapshot of a copied stream. A null copy is a typed error, never a
    /// snapshot; the error carries the request that gives back the copy of the
    /// connection, if one came with it.
    pub fn try_from_raw(raw: RawStream) -> (r: Result<Stream, Rejected>)
        ensures
            raw.addr == 0 ==> r is Err && r->Err_0.error == OtcError::NullError
                && r->Err_0.discard@ == stream_release_calls(raw.connection.addr, 0),
            raw.addr != 0 ==> r is Ok && r->Ok_0.mirrors(raw) && r->Ok_0.native().live(),
    {
        let null = raw.addr == 0;
        let mut stream = Stream::from_raw(raw);
        if null {
            Err(Rejected { error: OtcError::NullError, discard: stream.release() })
        } else {
            Ok(stream)
        }
    }

    /// Turns what was read from a copied pointer into a snapshot that owns the copy.
    pub(crate) fn from_raw(raw: RawStream) -> (s: Stream)
        ensures
            s.mirrors(raw),
    {
        Stream {
            handle: NativeHandle::wrap(raw.addr),
            id: raw.id,
            name: raw.name,
            has_video: OtcBool(raw.has_video).value(),
            has_video_track: OtcBool(raw.has_video_track).value(),
            has_audio: OtcBool(raw.has_audio).value(),
            has_audio_track: OtcBool(raw.has_audio_track).value(),
            video_width: raw.video_width,
            video_height: raw.video_height,
            creation_time: raw.creation_time,
            video_type: StreamVideoType::from(raw.video_type),
            connection: Connection::from_raw(raw.connection),
        }
    }

    /// The identity key of the native copy; zero once it was given back.
    pub fn inner(&self) -> (k: usize)
        ensures
            k == self.native().key(),
    {
        self.handle.inner()
    }

    /// The unique identifier of the stream.
    pub fn id(&self) -> (id: String)
        ensures
            id@ == self.values().id,
    {
        self.id.clone()
    }

    /// The name that the publisher gave the stream.
    pub fn name(&self) -> (name: String)
        ensures
            name@ == self.values().name,
    {
        self.name.clone()
    }

    /// Whether the stream is publishing video.
    pub fn has_video(&self) -> (b: bool)
        ensures
            b == self.values().has_video,
    {
        self.has_video
    }

    /// Whether the stream contains a video track.
    pub fn has_video_track(&self) -> (b: bool)
        ensures
            b == self.values().has_video_track,
    {
        self.has_video_track
    }

    /// Whether the stream is publishing audio.
    pub fn has_audio(&self) -> (b: bool)
        ensures
            b == self.values().has_audio,
    {
        self.has_audio
    }

    /// Whether the stream contains an audio track.
    pub fn has_audio_track(&self) -> (b: bool)
        ensures
            b == self.values().has_audio_track,
    {
        self.has_audio_track
    }

    /// The width of the video in pixels.
    pub fn get_video_width(&self) -> (w: i32)
        ensures
            w == self.values().video_width,
    {
        self.video_width
    }

    /// The height of the video in pixels.
    pub fn get_video_height(&self) -> (h: i32)
        ensures
            h == self.values().video_height,
    {
        self.video_height
    }

    /// The time at which the stream was created.
    pub fn get_creation_time(&self) -> (t: i64)
        ensures
            t == self.values().creation_time,
    {
        self.creation_time
    }

    pub fn get_video_type(&self) -> (t: StreamVideoType)
        ensures
            t == self.values().video_type,
    {
        self.video_type
    }

    /// The connection of the client that publishes the stream.
    pub fn get_connection(&self) -> (c: &Connection)
        ensures
            *c == self.connection(),
    {
        &self.connection
    }

    /// The requests that copy the native objects, which a second owner needs: the
    /// stream first, then its connection.
    pub fn copy_calls(&self) -> (r: Result<Vec<EngineCall>, OtcError>)
        ensures
            !self.native().live() ==> r == Err::<Vec<EngineCall>, OtcError>(OtcError::NullError),
            self.native().live() ==> r is Ok && r->Ok_0@ == seq![
                (EngineCall::StreamCopy { stream: self.native().key() }),
                (EngineCall::ConnectionCopy { connection: self.connection().native().key() }),
            ],
    {
        match self.handle.checked() {
            Ok(key) => {
                let mut calls: Vec<EngineCall> = Vec::new();
                calls.push(EngineCall::StreamCopy { stream: key });
                calls.push(EngineCall::ConnectionCopy { connection: self.connection.inner() });
                Ok(calls)
            },
            Err(e) => Err(e),
        }
    }

    /// A second snapshot with the same values, which owns the copies that the
    /// engine made for it. A null copy of the stream is a typed error.
    pub fn duplicate(&self, copied: usize, copied_connection: usize) -> (r: Result<
        Stream,
        OtcError,
    >)
        ensures
            copied == 0 ==> r == Err::<Stream, OtcError>(OtcError::NullError),
            copied != 0 ==> r is Ok && r->Ok_0.values() == self.values() && r->Ok_0.native().key()
                == copied && r->Ok_0.native().owned() && r->Ok_0.connection().same_values(
                self.connection(),
            ) && r->Ok_0.connection().native().key() == copied_connection,
    {
        match NativeHandle::adopt(copied) {
            Ok(handle) => {
                let raw = RawConnection {
                    addr: copied_connection,
                    id: self.connection.get_id(),
                    session_id: self.connection.get_session_id(),
                    creation_time: self.connection.get_creation_time(),
                };
                Ok(
                    Stream {
                        handle,
                        id: self.id.clone(),
                        name: self.name.clone(),
                        has_video: self.has_video,
                        has_video_track: self.has_video_track,
                        has_audio: self.has_audio,
                        has_audio_track: self.has_audio_track,
                        video_width: self.video_width,
                        video_height: self.video_height,
                        creation_time: self.creation_time,
                        video_type: self.video_type,
                        connection: Connection::from_raw(raw),
                    },
                )
            },
            Err(e) => Err(e),
        }
    }

    /// Gives the native copies back: the connection's, then the stream's. Each
    /// delete request is made once, by the first call that finds its copy live;
    /// every later call returns nothing. The values stay readable.
    pub fn release(&mut self) -> (calls: Vec<EngineCall>)
        ensures
            calls@ == stream_release_calls(
                old(self).connection().native().key(),
                old(self).native().key(),
            ),
            !final(self).native().live(),
            !final(self).connection().native().live(),
            final(self).values() == old(self).values(),
            final(self).connection().same_values(old(self).connection()),
    {
        proof {
            use_type_invariant(&*self);
        }
        let mut calls: Vec<EngineCall> = Vec::new();
        let mut connection = Connection::from_raw(
            RawConnection { addr: 0, id: String::new(), session_id: String::new(), creation_time: 0 },
        );
        std::mem::swap(&mut connection, &mut self.connection);
        match connection.release() {
            Some(call) => {
                calls.push(call);
            },
            None => {},
        }
        self.connection = connection;
        match self.handle.request_delete() {
            Some(addr) => {
                calls.push(EngineCall::StreamDelete { stream: addr });
            },
            None => {},
        }
        calls
    }
}

/// The delete requests that give back a stream and its connection, live ones only.
pub open spec fn stream_release_calls(connection: usize, stream: usize) -> Seq<EngineCall> {
    let first = if connection != 0 {
        seq![(EngineCall::ConnectionDelete { connection })]
    } else {
        Seq::<EngineCall>::empty()
    };
    if stream != 0 {
        first.push((EngineCall::StreamDelete { stream }))
    } else {
        first
    }
}

/// A snapshot reproduces the values that were read: whatever the host read from
/// the copied pointer is what the getters report, for as long as the snapshot
/// lives, and a duplicate reports the same.
pub proof fn lemma_stream_snapshot_round_trip(raw: RawStream, s: Stream)
    requires
        s.mirrors(raw),
    ensures
        s.values().id == raw.id@,
        s.values().name == raw.name@,
        s.values().has_video == (raw.has_video != 0),
        s.values().has_audio == (raw.has_audio != 0),
        s.values().video_width == raw.video_width,
        s.values().video_height == raw.video_height,
        s.values().creation_time == raw.creation_time,
        s.values().video_type == stream_video_type_of(raw.video_type),
        s.connection().id() == raw.connection.id@,
        s.native().live() <==> raw.addr != 0,
{
}

} // verus!
