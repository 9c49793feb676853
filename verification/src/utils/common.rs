//! Values shared by the capture and render helpers.

use vstd::prelude::*;
use crate::video_frame::FrameFormat;

verus! {

/// A pipeline element that could not be made, by its name.
#[derive(Clone, Copy, Debug, PartialEq, Eq)]
pub struct MissingElement(pub &'static str);

/// What a client needs to join a session.
#[derive(Clone, Debug, Default)]
pub struct Credentials {
    pub api_key: String,
    pub session_id: String,
    pub token: String,
}

/// The raw video formats that the pipelines handle.
#[derive(Clone, Copy, Debug, PartialEq, Eq)]
pub enum VideoFormat {
    Abgr,
    Argb,
    Bgra,
    Nv12,
    Nv21,
    Rgba,
    Uyvy,
    I420,
    Yuy2,
}

/// The pipeline format for a pixel format of the engine, where there is one.
pub open spec fn pipeline_format(format: FrameFormat) -> Option<VideoFormat> {
    match format {
        FrameFormat::Abgr32 => Some(VideoFormat::Abgr),
        FrameFormat::Argb32 => Some(VideoFormat::Argb),
        FrameFormat::Bgra32 => Some(VideoFormat::Bgra),
        FrameFormat::Nv12 => Some(VideoFormat::Nv12),
        FrameFormat::Nv21 => Some(VideoFormat::Nv21),
        FrameFormat::Rgba32 => Some(VideoFormat::Rgba),
        FrameFormat::Uyvy => Some(VideoFormat::Uyvy),
        FrameFormat::Yuv420P => Some(VideoFormat::I420),
        FrameFormat::Yuy2 => Some(VideoFormat::Yuy2),
        _ => None,
    }
}

/// The pipeline format for a pixel format of the engine, or nothing for a
/// format that the pipelines do not handle.
pub fn try_gst_from_otc_format(format: FrameFormat) -> (r: Option<VideoFormat>)
    ensures
        r == pipeline_format(format),
{
    match format {
        FrameFormat::Abgr32 => Some(VideoFormat::Abgr),
        FrameFormat::Argb32 => Some(VideoFormat::Argb),
        FrameFormat::Bgra32 => Some(VideoFormat::Bgra),
        FrameFormat::Nv12 => Some(VideoFormat::Nv12),
        FrameFormat::Nv21 => Some(VideoFormat::Nv21),
        FrameFormat::Rgba32 => Some(VideoFormat::Rgba),
        FrameFormat::Uyvy => Some(VideoFormat::Uyvy),
        FrameFormat::Yuv420P => Some(VideoFormat::I420),
        FrameFormat::Yuy2 => Some(VideoFormat::Yuy2),
        _ => None,
    }
}

/// The pipeline format for a pixel format that the pipelines handle.
pub fn gst_from_otc_format(format: FrameFormat) -> (r: VideoFormat)
    requires
        pipeline_format(format) is Some,
    ensures
        Some(r) == pipeline_format(format),
{
    match try_gst_from_otc_format(format) {
        Some(f) => f,
        None => VideoFormat::I420,
    }
}

} // verus!
