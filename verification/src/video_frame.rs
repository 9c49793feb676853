//! Video frames: pixel formats, planes, and the frame as an owned snapshot.

use vstd::prelude::*;
use vstd::std_specs::convert::FromSpecImpl;
use crate::codes;
use crate::engine::EngineCall;
use crate::enums::OtcError;
use crate::handle::NativeHandle;

verus! {

/// Pixel formats of a video frame.
#[derive(Clone, Copy, Debug, PartialEq, Eq)]
pub enum FrameFormat {
    /// ABGR, 32 bits.
    Abgr32,
    /// ARGB, 32 bits.
    Argb32,
    /// BGRA, 32 bits.
    Bgra32,
    /// A compressed frame.
    Compressed,
    /// The upper end of the plain formats.
    Max,
    /// Motion JPEG.
    Mjpeg,
    /// NV12.
    Nv12,
    /// NV21.
    Nv21,
    /// RGBA, 32 bits.
    Rgba32,
    /// RGB, 24 bits.
    Rgb24,
    /// UYVY.
    Uyvy,
    /// Planar YUV 4:2:0.
    Yuv420P,
    /// YUY2.
    Yuy2,
    /// A code outside the known set.
    __Unknown,
}

/// The pixel format that a code of the engine stands for.
pub open spec fn frame_format_of(code: u32) -> FrameFormat {
    if code == codes::OTC_VIDEO_FRAME_FORMAT_ABGR32 {
        FrameFormat::Abgr32
    } else if code == codes::OTC_VIDEO_FRAME_FORMAT_ARGB32 {
        FrameFormat::Argb32
    } else if code == codes::OTC_VIDEO_FRAME_FORMAT_BGRA32 {
        FrameFormat::Bgra32
    } else if code == codes::OTC_VIDEO_FRAME_FORMAT_COMPRESSED {
        FrameFormat::Compressed
    } else if code == codes::OTC_VIDEO_FRAME_FORMAT_MAX {
        FrameFormat::Max
    } else if code == codes::OTC_VIDEO_FRAME_FORMAT_MJPEG {
        FrameFormat::Mjpeg
    } else if code == codes::OTC_VIDEO_FRAME_FORMAT_NV12 {
        FrameFormat::Nv12
    } else if code == codes::OTC_VIDEO_FRAME_FORMAT_NV21 {
        FrameFormat::Nv21
    } else if code == codes::OTC_VIDEO_FRAME_FORMAT_RGBA32 {
        FrameFormat::Rgba32
    } else if code == codes::OTC_VIDEO_FRAME_FORMAT_RGB24 {
        FrameFormat::Rgb24
    } else if code == codes::OTC_VIDEO_FRAME_FORMAT_UYVY {
        FrameFormat::Uyvy
    } else if code == codes::OTC_VIDEO_FRAME_FORMAT_YUV420P {
        FrameFormat::Yuv420P
    } else if code == codes::OTC_VIDEO_FRAME_FORMAT_YUY2 {
        FrameFormat::Yuy2
    } else {
        FrameFormat::__Unknown
    }
}

impl From<u32> for FrameFormat {
    fn from(code: u32) -> (kind: FrameFormat) {
        if code == codes::OTC_VIDEO_FRAME_FORMAT_ABGR32 {
            FrameFormat::Abgr32
        } else if code == codes::OTC_VIDEO_FRAME_FORMAT_ARGB32 {
            FrameFormat::Argb32
        } else if code == codes::OTC_VIDEO_FRAME_FORMAT_BGRA32 {
            FrameFormat::Bgra32
        } else if code == codes::OTC_VIDEO_FRAME_FORMAT_COMPRESSED {
            FrameFormat::Compressed
        } else if code == codes::OTC_VIDEO_FRAME_FORMAT_MAX {
            FrameFormat::Max
        } else if code == codes::OTC_VIDEO_FRAME_FORMAT_MJPEG {
            FrameFormat::Mjpeg
        } else if code == codes::OTC_VIDEO_FRAME_FORMAT_NV12 {
            FrameFormat::Nv12
        } else if code == codes::OTC_VIDEO_FRAME_FORMAT_NV21 {
            FrameFormat::Nv21
        } else if code == codes::OTC_VIDEO_FRAME_FORMAT_RGBA32 {
            FrameFormat::Rgba32
        } else if code == codes::OTC_VIDEO_FRAME_FORMAT_RGB24 {
            FrameFormat::Rgb24
        } else if code == codes::OTC_VIDEO_FRAME_FORMAT_UYVY {
            FrameFormat::Uyvy
        } else if code == codes::OTC_VIDEO_FRAME_FORMAT_YUV420P {
            FrameFormat::Yuv420P
        } else if code == codes::OTC_VIDEO_FRAME_FORMAT_YUY2 {
            FrameFormat::Yuy2
        } else {
            FrameFormat::__Unknown
        }
    }
}

impl FromSpecImpl<u32> for FrameFormat {
    open spec fn obeys_from_spec() -> bool {
        true
    }

    open spec fn from_spec(code: u32) -> FrameFormat {
        frame_format_of(code)
    }
}

impl FrameFormat {
    /// The code that the engine is given for this value.
    pub open spec fn code_spec(self) -> u32 {
        match self {
            FrameFormat::Abgr32 => codes::OTC_VIDEO_FRAME_FORMAT_ABGR32,
            FrameFormat::Argb32 => codes::OTC_VIDEO_FRAME_FORMAT_ARGB32,
            FrameFormat::Bgra32 => codes::OTC_VIDEO_FRAME_FORMAT_BGRA32,
            FrameFormat::Compressed => codes::OTC_VIDEO_FRAME_FORMAT_COMPRESSED,
            FrameFormat::Max => codes::OTC_VIDEO_FRAME_FORMAT_MAX,
            FrameFormat::Mjpeg => codes::OTC_VIDEO_FRAME_FORMAT_MJPEG,
            FrameFormat::Nv12 => codes::OTC_VIDEO_FRAME_FORMAT_NV12,
            FrameFormat::Nv21 => codes::OTC_VIDEO_FRAME_FORMAT_NV21,
            FrameFormat::Rgba32 => codes::OTC_VIDEO_FRAME_FORMAT_RGBA32,
            FrameFormat::Rgb24 => codes::OTC_VIDEO_FRAME_FORMAT_RGB24,
            FrameFormat::Uyvy => codes::OTC_VIDEO_FRAME_FORMAT_UYVY,
            FrameFormat::Yuv420P => codes::OTC_VIDEO_FRAME_FORMAT_YUV420P,
            FrameFormat::Yuy2 => codes::OTC_VIDEO_FRAME_FORMAT_YUY2,
            FrameFormat::__Unknown => codes::OTC_VIDEO_FRAME_FORMAT_UNKNOWN,
        }
    }

    pub fn code(self) -> (c: u32)
        ensures
            c == self.code_spec(),
    {
        match self {
            FrameFormat::Abgr32 => codes::OTC_VIDEO_FRAME_FORMAT_ABGR32,
            FrameFormat::Argb32 => codes::OTC_VIDEO_FRAME_FORMAT_ARGB32,
            FrameFormat::Bgra32 => codes::OTC_VIDEO_FRAME_FORMAT_BGRA32,
            FrameFormat::Compressed => codes::OTC_VIDEO_FRAME_FORMAT_COMPRESSED,
            FrameFormat::Max => codes::OTC_VIDEO_FRAME_FORMAT_MAX,
            FrameFormat::Mjpeg => codes::OTC_VIDEO_FRAME_FORMAT_MJPEG,
            FrameFormat::Nv12 => codes::OTC_VIDEO_FRAME_FORMAT_NV12,
            FrameFormat::Nv21 => codes::OTC_VIDEO_FRAME_FORMAT_NV21,
            FrameFormat::Rgba32 => codes::OTC_VIDEO_FRAME_FORMAT_RGBA32,
            FrameFormat::Rgb24 => codes::OTC_VIDEO_FRAME_FORMAT_RGB24,
            FrameFormat::Uyvy => codes::OTC_VIDEO_FRAME_FORMAT_UYVY,
            FrameFormat::Yuv420P => codes::OTC_VIDEO_FRAME_FORMAT_YUV420P,
            FrameFormat::Yuy2 => codes::OTC_VIDEO_FRAME_FORMAT_YUY2,
            FrameFormat::__Unknown => codes::OTC_VIDEO_FRAME_FORMAT_UNKNOWN,
        }
    }
}
/// Planes of a video frame.
#[derive(Clone, Copy, Debug, PartialEq, Eq)]
pub enum FramePlane {
    /// The one plane of a packed format.
    Packed,
    /// The U plane.
    U,
    /// U and V, interleaved.
    UvInterleaved,
    /// The V plane.
    V,
    /// V and U, interleaved.
    VuInterleaved,
    /// The Y plane.
    Y,
    /// A code outside the known set.
    __Unknown,
}

/// The plane that a code of the engine stands for.
pub open spec fn frame_plane_of(code: u32) -> FramePlane {
    if code == codes::OTC_VIDEO_FRAME_PLANE_PACKED {
        FramePlane::Packed
    } else if code == codes::OTC_VIDEO_FRAME_PLANE_U {
        FramePlane::U
    } else if code == codes::OTC_VIDEO_FRAME_PLANE_UV_INTERLEAVED {
        FramePlane::UvInterleaved
    } else if code == codes::OTC_VIDEO_FRAME_PLANE_V {
        FramePlane::V
    } else if code == codes::OTC_VIDEO_FRAME_PLANE_VU_INTERLEAVED {
        FramePlane::VuInterleaved
    } else if code == codes::OTC_VIDEO_FRAME_PLANE_Y {
        FramePlane::Y
    } else {
        FramePlane::__Unknown
    }
}

impl From<u32> for FramePlane {
    fn from(code: u32) -> (kind: FramePlane) {
        if code == codes::OTC_VIDEO_FRAME_PLANE_PACKED {
            FramePlane::Packed
        } else if code == codes::OTC_VIDEO_FRAME_PLANE_U {
            FramePlane::U
        } else if code == codes::OTC_VIDEO_FRAME_PLANE_UV_INTERLEAVED {
            FramePlane::UvInterleaved
        } else if code == codes::OTC_VIDEO_FRAME_PLANE_V {
            FramePlane::V
        } else if code == codes::OTC_VIDEO_FRAME_PLANE_VU_INTERLEAVED {
            FramePlane::VuInterleaved
        } else if code == codes::OTC_VIDEO_FRAME_PLANE_Y {
            FramePlane::Y
        } else {
            FramePlane::__Unknown
        }
    }
}

impl FromSpecImpl<u32> for FramePlane {
    open spec fn obeys_from_spec() -> bool {
        true
    }

    open spec fn from_spec(code: u32) -> FramePlane {
        frame_plane_of(code)
    }
}

impl FramePlane {
    /// The code that the engine is given for this value.
    pub open spec fn code_spec(self) -> u32 {
        match self {
            FramePlane::Packed => codes::OTC_VIDEO_FRAME_PLANE_PACKED,
            FramePlane::U => codes::OTC_VIDEO_FRAME_PLANE_U,
            FramePlane::UvInterleaved => codes::OTC_VIDEO_FRAME_PLANE_UV_INTERLEAVED,
            FramePlane::V => codes::OTC_VIDEO_FRAME_PLANE_V,
            FramePlane::VuInterleaved => codes::OTC_VIDEO_FRAME_PLANE_VU_INTERLEAVED,
            FramePlane::Y => codes::OTC_VIDEO_FRAME_PLANE_Y,
            FramePlane::__Unknown => u32::MAX,
        }
    }

    pub fn code(self) -> (c: u32)
        ensures
            c == self.code_spec(),
    {
        match self {
            FramePlane::Packed => codes::OTC_VIDEO_FRAME_PLANE_PACKED,
            FramePlane::U => codes::OTC_VIDEO_FRAME_PLANE_U,
            FramePlane::UvInterleaved => codes::OTC_VIDEO_FRAME_PLANE_UV_INTERLEAVED,
            FramePlane::V => codes::OTC_VIDEO_FRAME_PLANE_V,
            FramePlane::VuInterleaved => codes::OTC_VIDEO_FRAME_PLANE_VU_INTERLEAVED,
            FramePlane::Y => codes::OTC_VIDEO_FRAME_PLANE_Y,
            FramePlane::__Unknown => u32::MAX,
        }
    }
}
/// A known pixel format survives the way to the engine and back.
pub proof fn lemma_frame_format_round_trip(format: FrameFormat)
    requires
        !(format is __Unknown),
    ensures
        frame_format_of(format.code_spec()) == format,
{
}

/// A known plane survives the way to the engine and back.
pub proof fn lemma_frame_plane_round_trip(plane: FramePlane)
    requires
        !(plane is __Unknown),
    ensures
        frame_plane_of(plane.code_spec()) == plane,
{
}

/// Size and stride of one plane, as the engine reports them.
#[derive(Clone, Copy, Debug, PartialEq, Eq)]
pub struct PlaneLayout {
    /// The plane's code.
    pub plane: u32,
    /// The plane's size in bytes.
    pub size: usize,
    /// The plane's stride in bytes.
    pub stride: i32,
}

/// What the host read through the engine's accessors from its own copy of a
/// frame. The pointer is zero when the engine supplied none.
#[derive(Debug)]
pub struct RawVideoFrame {
    pub addr: usize,
    pub format: u32,
    pub width: i32,
    pub height: i32,
    pub timestamp: i64,
    pub buffer: Vec<u8>,
    pub planes: Vec<PlaneLayout>,
}

/// A video frame: buffer, format, dimensions, timestamp and plane layout,
/// together with the owned native frame that they belong to.
#[derive(Debug)]
pub struct VideoFrame {
    handle: NativeHandle,
    format: FrameFormat,
    width: i32,
    height: i32,
    timestamp: i64,
    buffer: Vec<u8>,
    planes: Vec<PlaneLayout>,
}

/// The first entry of a plane table that describes the plane with this code.
pub open spec fn plane_entry(planes: Seq<PlaneLayout>, code: u32) -> Option<PlaneLayout>
    decreases planes.len(),
{
    if planes.len() == 0 {
        None
    } else if planes[0].plane == code {
        Some(planes[0])
    } else {
        plane_entry(planes.drop_first(), code)
    }
}

impl VideoFrame {
    pub closed spec fn native(self) -> NativeHandle {
        self.handle
    }

    pub closed spec fn format(self) -> FrameFormat {
        self.format
    }

    pub closed spec fn width(self) -> i32 {
        self.width
    }

    pub closed spec fn height(self) -> i32 {
        self.height
    }

    pub closed spec fn timestamp(self) -> i64 {
        self.timestamp
    }

    pub closed spec fn buffer(self) -> Seq<u8> {
        self.buffer@
    }

    pub closed spec fn planes(self) -> Seq<PlaneLayout> {
        self.planes@
    }

    #[verifier::type_invariant]
    spec fn owns_its_frame(self) -> bool {
        self.handle.owned()
    }

    /// The snapshot holds exactly what was read, and owns the copy.
    pub open spec fn mirrors(self, raw: RawVideoFrame) -> bool {
        &&& self.native().key() == raw.addr
        &&& self.native().owned()
        &&& self.format() == frame_format_of(raw.format)
        &&& self.width() == raw.width
        &&& self.height() == raw.height
        &&& self.timestamp() == raw.timestamp
        &&& self.buffer() == raw.buffer@
        &&& self.planes() == raw.planes@
    }

    /// The snapshot of a copied frame. A null copy is a typed error, never a
    /// snapshot.
    pub fn try_from_raw(raw: RawVideoFrame) -> (r: Result<VideoFrame, OtcError>)
        ensures
            raw.addr == 0 ==> r == Err::<VideoFrame, OtcError>(OtcError::NullError),
            raw.addr != 0 ==> r is Ok && r->Ok_0.mirrors(raw) && r->Ok_0.native().live(),
    {
        if raw.addr == 0 {
            Err(OtcError::NullError)
        } else {
            Ok(VideoFrame::from_raw(raw))
        }
    }

    /// Turns what was read from a copied frame into a snapshot that owns the copy.
    pub(crate) fn from_raw(raw: RawVideoFrame) -> (f: VideoFrame)
        ensures
            f.mirrors(raw),
    {
        VideoFrame {
            handle: NativeHandle::wrap(raw.addr),
            format: FrameFormat::from(raw.format),
            width: raw.width,
            height: raw.height,
            timestamp: raw.timestamp,
            buffer: raw.buffer,
            planes: raw.planes,
        }
    }

    /// The request that creates a frame of a plain pixel format from a buffer.
    pub fn new_call(format: FrameFormat, width: i32, height: i32, buffer: Vec<u8>) -> (call:
        EngineCall)
        ensures
            call == (EngineCall::VideoFrameNew {
                format: format.code_spec(),
                width,
                height,
                buffer,
            }),
    {
        EngineCall::VideoFrameNew { format: format.code(), width, height, buffer }
    }

    /// The request that creates a motion-JPEG frame from `size` bytes of a buffer.
    pub fn new_mjpeg_call(width: i32, height: i32, buffer: Vec<u8>, size: usize) -> (call:
        EngineCall)
        ensures
            call == (EngineCall::VideoFrameNewMjpeg { width, height, buffer, size: size as u64 }),
    {
        EngineCall::VideoFrameNewMjpeg { width, height, buffer, size: size as u64 }
    }

    /// The request that creates a compressed frame from `size` bytes of a buffer.
    pub fn new_compressed_call(width: i32, height: i32, buffer: Vec<u8>, size: usize) -> (call:
        EngineCall)
        ensures
            call == (EngineCall::VideoFrameNewCompressed {
                width,
                height,
                buffer,
                size: size as u64,
            }),
    {
        EngineCall::VideoFrameNewCompressed { width, height, buffer, size: size as u64 }
    }

    /// The frame that the engine created from a buffer in a plain pixel format,
    /// with the plane layout that the engine reports for it. A null frame is a
    /// typed error. The timestamp starts at zero.
    pub fn new_with_planes(
        format: FrameFormat,
        width: i32,
        height: i32,
        buffer: Vec<u8>,
        planes: Vec<PlaneLayout>,
        native: usize,
    ) -> (r: Result<VideoFrame, OtcError>)
        ensures
            native == 0 ==> r == Err::<VideoFrame, OtcError>(OtcError::NullError),
            native != 0 ==> r is Ok && r->Ok_0.is_fresh(
                format,
                width,
                height,
                buffer@,
                planes@,
                native,
            ),
    {
        match NativeHandle::adopt(native) {
            Ok(handle) => Ok(
                VideoFrame { handle, format, width, height, timestamp: 0, buffer, planes },
            ),
            Err(e) => Err(e),
        }
    }

    /// The frame that the engine created from a buffer in a plain pixel format.
    /// A null frame is a typed error. The timestamp starts at zero, and the frame
    /// has no plane layout: that is known once the engine reports it, and then
    /// the frame is made with it.
    pub fn new(format: FrameFormat, width: i32, height: i32, buffer: Vec<u8>, native: usize) -> (r:
        Result<VideoFrame, OtcError>)
        ensures
            native == 0 ==> r == Err::<VideoFrame, OtcError>(OtcError::NullError),
            native != 0 ==> r is Ok && r->Ok_0.is_fresh(
                format,
                width,
                height,
                buffer@,
                Seq::<PlaneLayout>::empty(),
                native,
            ),
    {
        VideoFrame::new_with_planes(format, width, height, buffer, Vec::new(), native)
    }

    /// The motion-JPEG frame that the engine created from the first `size` bytes
    /// of a buffer. A null frame is a typed error.
    pub fn new_mjpeg(width: i32, height: i32, buffer: Vec<u8>, size: usize, native: usize) -> (r:
        Result<VideoFrame, OtcError>)
        ensures
            native == 0 ==> r == Err::<VideoFrame, OtcError>(OtcError::NullError),
            native != 0 ==> r is Ok && r->Ok_0.is_fresh(
                FrameFormat::Mjpeg,
                width,
                height,
                buffer@,
                Seq::<PlaneLayout>::empty(),
                native,
            ),
    {
        VideoFrame::new(FrameFormat::Mjpeg, width, height, buffer, native)
    }

    /// The compressed frame that the engine created from the first `size` bytes
    /// of a buffer. A null frame is a typed error.
    pub fn new_compressed(width: i32, height: i32, buffer: Vec<u8>, size: usize, native: usize) -> (r:
        Result<VideoFrame, OtcError>)
        ensures
            native == 0 ==> r == Err::<VideoFrame, OtcError>(OtcError::NullError),
            native != 0 ==> r is Ok && r->Ok_0.is_fresh(
                FrameFormat::Compressed,
                width,
                height,
                buffer@,
                Seq::<PlaneLayout>::empty(),
                native,
            ),
    {
        VideoFrame::new(FrameFormat::Compressed, width, height, buffer, native)
    }

    /// A frame as it is right after creation.
    pub open spec fn is_fresh(
        self,
        format: FrameFormat,
        width: i32,
        height: i32,
        buffer: Seq<u8>,
        planes: Seq<PlaneLayout>,
        native: usize,
    ) -> bool {
        &&& self.native().key() == native
        &&& self.native().owned()
        &&& self.format() == format
        &&& self.width() == width
        &&& self.height() == height
        &&& self.timestamp() == 0
        &&& self.buffer() == buffer
        &&& self.planes() == planes
    }

    /// The identity key of the native frame; zero once it was given back.
    pub fn inner(&self) -> (k: usize)
        ensures
            k == self.native().key(),
    {
        self.handle.inner()
    }

    /// The frame's bytes.
    pub fn get_buffer(&self) -> (r: Result<&Vec<u8>, OtcError>)
        ensures
            !self.native().live() ==> r == Err::<&Vec<u8>, OtcError>(OtcError::NullError),
            self.native().live() ==> r is Ok && r->Ok_0@ == self.buffer(),
    {
        if self.handle.is_null() {
            return Err(OtcError::NullError);
        }
        Ok(&self.buffer)
    }

    pub fn get_timestamp(&self) -> (r: Result<i64, OtcError>)
        ensures
            r == (if self.native().live() {
                Ok::<i64, OtcError>(self.timestamp())
            } else {
                Err::<i64, OtcError>(OtcError::NullError)
            }),
    {
        if self.handle.is_null() {
            return Err(OtcError::NullError);
        }
        Ok(self.timestamp)
    }

    /// Sets the timestamp, and returns the request that tells the engine.
    pub fn set_timestamp(&mut self, timestamp: i64) -> (r: Result<EngineCall, OtcError>)
        ensures
            r == (if old(self).native().live() {
                Ok::<EngineCall, OtcError>(
                    (EngineCall::VideoFrameSetTimestamp {
                        frame: old(self).native().key(),
                        timestamp,
                    }),
                )
            } else {
                Err::<EngineCall, OtcError>(OtcError::NullError)
            }),
            final(self).timestamp() == (if old(self).native().live() {
                timestamp
            } else {
                old(self).timestamp()
            }),
            final(self).native() == old(self).native(),
            final(self).format() == old(self).format(),
            final(self).width() == old(self).width(),
            final(self).height() == old(self).height(),
            final(self).buffer() == old(self).buffer(),
            final(self).planes() == old(self).planes(),
    {
        proof {
            use_type_invariant(&*self);
        }
        if self.handle.is_null() {
            return Err(OtcError::NullError);
        }
        self.timestamp = timestamp;
        Ok(EngineCall::VideoFrameSetTimestamp { frame: self.handle.inner(), timestamp })
    }

    pub fn get_width(&self) -> (r: Result<i32, OtcError>)
        ensures
            r == (if self.native().live() {
                Ok::<i32, OtcError>(self.width())
            } else {
                Err::<i32, OtcError>(OtcError::NullError)
            }),
    {
        if self.handle.is_null() {
            return Err(OtcError::NullError);
        }
        Ok(self.width)
    }

    pub fn get_height(&self) -> (r: Result<i32, OtcError>)
        ensures
            r == (if self.native().live() {
                Ok::<i32, OtcError>(self.height())
            } else {
                Err::<i32, OtcError>(OtcError::NullError)
            }),
    {
        if self.handle.is_null() {
            return Err(OtcError::NullError);
        }
        Ok(self.height)
    }

    /// The number of planes that the frame's layout describes.
    pub fn get_number_of_planes(&self) -> (r: Result<usize, OtcError>)
        ensures
            r == (if self.native().live() {
                Ok::<usize, OtcError>(self.planes().len() as usize)
            } else {
                Err::<usize, OtcError>(OtcError::NullError)
            }),
    {
        if self.handle.is_null() {
            return Err(OtcError::NullError);
        }
        Ok(self.planes.len())
    }

    pub fn get_format(&self) -> (r: Result<FrameFormat, OtcError>)
        ensures
            r == (if self.native().live() {
                Ok::<FrameFormat, OtcError>(self.format())
            } else {
                Err::<FrameFormat, OtcError>(OtcError::NullError)
            }),
    {
        if self.handle.is_null() {
            return Err(OtcError::NullError);
        }
        Ok(self.format)
    }

    /// Sets the pixel format, and returns the request that tells the engine.
    pub fn set_format(&mut self, format: FrameFormat) -> (r: Result<EngineCall, OtcError>)
        ensures
            r == (if old(self).native().live() {
                Ok::<EngineCall, OtcError>(
                    (EngineCall::VideoFrameSetFormat {
                        frame: old(self).native().key(),
                        format: format.code_spec(),
                    }),
                )
            } else {
                Err::<EngineCall, OtcError>(OtcError::NullError)
            }),
            final(self).format() == (if old(self).native().live() {
                format
            } else {
                old(self).format()
            }),
            final(self).native() == old(self).native(),
            final(self).timestamp() == old(self).timestamp(),
            final(self).width() == old(self).width(),
            final(self).height() == old(self).height(),
            final(self).buffer() == old(self).buffer(),
            final(self).planes() == old(self).planes(),
    {
        proof {
            use_type_invariant(&*self);
        }
        if self.handle.is_null() {
            return Err(OtcError::NullError);
        }
        self.format = format;
        Ok(EngineCall::VideoFrameSetFormat { frame: self.handle.inner(), format: format.code() })
    }

    /// The request that has the engine convert the frame into another format.
    /// The converted frame comes back as a frame of its own.
    pub fn convert(&self, format: FrameFormat) -> (r: Result<EngineCall, OtcError>)
        ensures
            r == (if self.native().live() {
                Ok::<EngineCall, OtcError>(
                    (EngineCall::VideoFrameConvert {
                        format: format.code_spec(),
                        frame: self.native().key(),
                    }),
                )
            } else {
                Err::<EngineCall, OtcError>(OtcError::NullError)
            }),
    {
        if self.handle.is_null() {
            return Err(OtcError::NullError);
        }
        Ok(EngineCall::VideoFrameConvert { format: format.code(), frame: self.handle.inner() })
    }

    fn find_plane(&self, code: u32) -> (found: Option<PlaneLayout>)
        ensures
            found == plane_entry(self.planes(), code),
    {
        let mut i: usize = 0;
        assert(self.planes@.subrange(0, self.planes@.len() as int) =~= self.planes@);
        while i < self.planes.len()
            invariant
                i <= self.planes@.len(),
                plane_entry(self.planes@, code) == plane_entry(
                    self.planes@.subrange(i as int, self.planes@.len() as int),
                    code,
                ),
            decreases self.planes@.len() - i,
        {
            let ghost rest = self.planes@.subrange(i as int, self.planes@.len() as int);
            assert(rest[0] == self.planes@[i as int]);
            assert(rest.drop_first() =~= self.planes@.subrange(
                i as int + 1,
                self.planes@.len() as int,
            ));
            if self.planes[i].plane == code {
                return Some(self.planes[i]);
            }
            i += 1;
        }
        assert(self.planes@.subrange(i as int, self.planes@.len() as int).len() == 0);
        None
    }

    /// The size of a plane in bytes; zero for a plane that the layout lacks.
    pub fn get_plane_size(&self, plane: FramePlane) -> (r: Result<usize, OtcError>)
        ensures
            r == (if !self.native().live() {
                Err::<usize, OtcError>(OtcError::NullError)
            } else {
                match plane_entry(self.planes(), plane.code_spec()) {
                    Some(layout) => Ok::<usize, OtcError>(layout.size),
                    None => Ok::<usize, OtcError>(0usize),
                }
            }),
    {
        if self.handle.is_null() {
            return Err(OtcError::NullError);
        }
        match self.find_plane(plane.code()) {
            Some(layout) => Ok(layout.size),
            None => Ok(0),
        }
    }

    /// The stride of a plane in bytes; zero for a plane that the layout lacks.
    pub fn get_plane_stride(&self, plane: FramePlane) -> (r: Result<i32, OtcError>)
        ensures
            r == (if !self.native().live() {
                Err::<i32, OtcError>(OtcError::NullError)
            } else {
                match plane_entry(self.planes(), plane.code_spec()) {
                    Some(layout) => Ok::<i32, OtcError>(layout.stride),
                    None => Ok::<i32, OtcError>(0i32),
                }
            }),
    {
        if self.handle.is_null() {
            return Err(OtcError::NullError);
        }
        match self.find_plane(plane.code()) {
            Some(layout) => Ok(layout.stride),
            None => Ok(0),
        }
    }

    /// The request that copies the native frame, which a second owner needs.
    pub fn copy_call(&self) -> (r: Result<EngineCall, OtcError>)
        ensures
            r == (if self.native().live() {
                Ok::<EngineCall, OtcError>((EngineCall::VideoFrameCopy { frame: self.native().key() }))
            } else {
                Err::<EngineCall, OtcError>(OtcError::NullError)
            }),
    {
        match self.handle.checked() {
            Ok(key) => Ok(EngineCall::VideoFrameCopy { frame: key }),
            Err(e) => Err(e),
        }
    }

    /// Gives the native frame back. The first call on a live frame returns the
    /// delete request; every later call returns nothing.
    pub fn release(&mut self) -> (call: Option<EngineCall>)
        ensures
            call == (if old(self).native().live() {
                Some((EngineCall::VideoFrameDelete { frame: old(self).native().key() }))
            } else {
                None::<EngineCall>
            }),
            !final(self).native().live(),
            final(self).buffer() == old(self).buffer(),
    {
        proof {
            use_type_invariant(&*self);
        }
        match self.handle.request_delete() {
            Some(addr) => Some(EngineCall::VideoFrameDelete { frame: addr }),
            None => None,
        }
    }
}

} // verus!
