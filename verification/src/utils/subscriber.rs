//! The settings of a subscribing client: which streams it takes, and how the
//! planes of the frames that it renders are laid out.

use vstd::prelude::*;
use crate::utils::common::Credentials;
use crate::video_frame::FramePlane;

verus! {

/// A client that subscribes to a stream of a session.
#[derive(Clone, Debug)]
pub struct Subscriber {
    credentials: Credentials,
    duration: Option<u64>,
    stream_id: Option<String>,
    ignored_stream_ids: Vec<String>,
}

/// Whether a list of identifiers holds this one.
pub open spec fn lists(ids: Seq<String>, id: Seq<char>) -> bool {
    exists|i: int| 0 <= i < ids.len() && #[trigger] ids[i]@ == id
}

/// The size in bytes of a plane of a planar YUV 4:2:0 picture: the Y plane has
/// one byte for each pixel, the U and V planes one for each block of two by two,
/// a started block counting as a whole one.
pub open spec fn plane_size(plane: FramePlane, width: int, height: int) -> int {
    match plane {
        FramePlane::Y => width * height,
        _ => ((width + 1) / 2) * ((height + 1) / 2),
    }
}

/// The half of a length, rounded up.
pub fn half_up(n: u32) -> (h: u32)
    ensures
        h == (n + 1) / 2,
{
    let wide: u64 = n as u64 + 1;
    (wide / 2) as u32
}

impl Subscriber {
    pub closed spec fn credentials(self) -> Credentials {
        self.credentials
    }

    /// For how many seconds the client runs; without a limit it runs until it
    /// is stopped.
    pub closed spec fn duration(self) -> Option<u64> {
        self.duration
    }

    /// The one stream that the client wants, if it names one.
    pub closed spec fn wanted(self) -> Option<Seq<char>> {
        match self.stream_id {
            Some(id) => Some(id@),
            None => None,
        }
    }

    /// The streams that the client passes over.
    pub closed spec fn ignored(self) -> Seq<String> {
        self.ignored_stream_ids@
    }

    /// Whether the client takes the stream with this identifier: it does unless
    /// it wants another one, or passes this one over.
    pub open spec fn takes(self, stream_id: Seq<char>) -> bool {
        &&& self.wanted() matches Some(wanted) ==> wanted == stream_id
        &&& !lists(self.ignored(), stream_id)
    }

    /// A subscribing client. Without a list of ignored streams none is ignored.
    pub fn new(
        credentials: Credentials,
        duration: Option<u64>,
        stream_id: Option<String>,
        ignored_stream_ids: Option<Vec<String>>,
    ) -> (subscriber: Subscriber)
        ensures
            subscriber.credentials() == credentials,
            subscriber.duration() == duration,
            subscriber.wanted() == (match stream_id {
                Some(id) => Some(id@),
                None => None::<Seq<char>>,
            }),
            subscriber.ignored() == (match ignored_stream_ids {
                Some(ids) => ids@,
                None => Seq::<String>::empty(),
            }),
    {
        let ignored_stream_ids = match ignored_stream_ids {
            Some(ids) => ids,
            None => Vec::new(),
        };
        Subscriber { credentials, duration, stream_id, ignored_stream_ids }
    }

    /// For how many seconds the client runs.
    pub fn run_for(&self) -> (duration: Option<u64>)
        ensures
            duration == self.duration(),
    {
        self.duration
    }

    pub fn get_credentials(&self) -> (credentials: &Credentials)
        ensures
            *credentials == self.credentials(),
    {
        &self.credentials
    }

    /// Whether the client subscribes to the stream with this identifier.
    pub fn accepts(&self, stream_id: &String) -> (b: bool)
        ensures
            b == self.takes(stream_id@),
    {
        match &self.stream_id {
            Some(wanted) => {
                if *wanted != *stream_id {
                    return false;
                }
            },
            None => {},
        }
        let mut i: usize = 0;
        while i < self.ignored_stream_ids.len()
            invariant
                i <= self.ignored_stream_ids@.len(),
                forall|j: int| 0 <= j < i ==> self.ignored_stream_ids@[j]@ != stream_id@,
            decreases self.ignored_stream_ids@.len() - i,
        {
            if self.ignored_stream_ids[i] == *stream_id {
                return false;
            }
            i += 1;
        }
        true
    }

    /// The size in bytes of the Y, U or V plane of a planar YUV 4:2:0 frame.
    pub fn get_plane_size(plane: FramePlane, width: u32, height: u32) -> (size: u32)
        requires
            plane is Y || plane is U || plane is V,
            plane_size(plane, width as int, height as int) <= u32::MAX,
        ensures
            size == plane_size(plane, width as int, height as int),
    {
        match plane {
            FramePlane::Y => {
                let size: u64 = width as u64 * height as u64;
                size as u32
            },
            _ => {
                let pw: u64 = half_up(width) as u64;
                let ph: u64 = half_up(height) as u64;
                assert(pw * ph <= 0xffff_ffff * 0xffff_ffff) by (nonlinear_arith)
                    requires
                        0 <= pw <= 0xffff_ffff,
                        0 <= ph <= 0xffff_ffff,
                ;
                (pw * ph) as u32
            },
        }
    }

    /// Where the Y, U and V planes of a planar YUV 4:2:0 frame start in its
    /// buffer: Y at the front, U behind Y, V behind U. Nothing is returned for
    /// dimensions whose planes do not fit the machine's sizes.
    pub fn plane_offsets(width: u32, height: u32) -> (r: Option<[usize; 3]>)
        ensures
            r is Some <==> plane_size(FramePlane::Y, width as int, height as int) + plane_size(
                FramePlane::U,
                width as int,
                height as int,
            ) <= u32::MAX,
            r matches Some(offsets) ==> {
                &&& offsets[0] == 0
                &&& offsets[1] == plane_size(FramePlane::Y, width as int, height as int)
                &&& offsets[2] == plane_size(FramePlane::Y, width as int, height as int)
                    + plane_size(FramePlane::U, width as int, height as int)
            },
    {
        let w: u64 = width as u64;
        let h: u64 = height as u64;
        assert(w * h <= 0xffff_ffff * 0xffff_ffff) by (nonlinear_arith)
            requires
                0 <= w <= 0xffff_ffff,
                0 <= h <= 0xffff_ffff,
        ;
        let y: u64 = w * h;
        let pw: u64 = half_up(width) as u64;
        let ph: u64 = half_up(height) as u64;
        assert(pw * ph <= 0xffff_ffff * 0xffff_ffff) by (nonlinear_arith)
            requires
                0 <= pw <= 0xffff_ffff,
                0 <= ph <= 0xffff_ffff,
        ;
        let u: u64 = pw * ph;
        if y > 0xffff_ffff || u > 0xffff_ffff || y + u > 0xffff_ffff {
            return None;
        }
        Some([0, y as usize, (y + u) as usize])
    }
}

} // verus!
