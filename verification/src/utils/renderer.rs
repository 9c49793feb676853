//! Descriptions of what the render pipeline is fed.

use vstd::prelude::*;
use byte_slice_cast::AsByteSlice;
use crate::audio_device::AudioSample;
use crate::utils::capturer::reads_either;
use crate::utils::common::{pipeline_format, try_gst_from_otc_format, VideoFormat};
use crate::video_frame::FrameFormat;

verus! {

/// `AsByteSlice::as_byte_slice`: the bytes of a run of 16-bit samples in the
/// machine's byte order, two for every sample: read back two at a time in that
/// order, which is one of the two, the bytes are the samples.
#[verifier::external_body]
fn bytes_of_samples(samples: &Vec<i16>) -> (bytes: Vec<u8>)
    ensures
        bytes@.len() == 2 * samples@.len(),
        reads_either(bytes@, samples@),
{
    samples.as_byte_slice().to_vec()
}

/// The sample format of rendered audio: signed, 16 bits, little end first.
pub const AUDIO_FORMAT: &'static str = "S16LE";

/// The layout of rendered audio: the channels take turns.
pub const AUDIO_LAYOUT: &'static str = "interleaved";

/// One buffer of audio for the render pipeline, with its description.
#[derive(Debug)]
pub struct AudioBuffer {
    pub bytes: Vec<u8>,
    pub format: &'static str,
    pub layout: &'static str,
    pub rate: i32,
    pub channels: i32,
}

/// One buffer of video for the render pipeline, with its description.
#[derive(Debug)]
pub struct VideoBuffer {
    pub bytes: Vec<u8>,
    pub format: VideoFormat,
    pub width: u32,
    pub height: u32,
    /// Where each plane starts in the bytes.
    pub offset: Vec<usize>,
    /// The stride of each plane.
    pub stride: Vec<i32>,
}

/// The render side: turns frames and samples into buffers for the pipeline.
#[derive(Clone, Copy, Debug)]
pub struct Renderer {}

impl Renderer {
    pub fn new() -> (renderer: Renderer) {
        Renderer {  }
    }

    /// The buffer for one video frame: the frame's bytes, described by its
    /// format, its dimensions and its plane layout. A frame in a format that the
    /// pipeline does not handle yields nothing.
    pub fn push_video_buffer(
        &self,
        data: Vec<u8>,
        format: FrameFormat,
        width: u32,
        height: u32,
        offset: Vec<usize>,
        stride: Vec<i32>,
    ) -> (r: Option<VideoBuffer>)
        ensures
            r is Some <==> pipeline_format(format) is Some,
            r matches Some(buffer) ==> {
                &&& buffer.bytes@ == data@
                &&& Some(buffer.format) == pipeline_format(format)
                &&& buffer.width == width
                &&& buffer.height == height
                &&& buffer.offset@ == offset@
                &&& buffer.stride@ == stride@
            },
    {
        match try_gst_from_otc_format(format) {
            Some(format) => Some(VideoBuffer { bytes: data, format, width, height, offset, stride }),
            None => None,
        }
    }

    /// The buffer for one audio sample: two bytes for every sample, which are
    /// the sample in the machine's byte order, described by the fixed sample
    /// format and layout and by the sample's own rate and channels.
    pub fn render_audio_sample(&self, sample: &AudioSample) -> (buffer: AudioBuffer)
        ensures
            buffer.bytes@.len() == 2 * sample.data.0@.len(),
            reads_either(buffer.bytes@, sample.data.0@),
            buffer.format@ == AUDIO_FORMAT@,
            buffer.layout@ == AUDIO_LAYOUT@,
            buffer.rate == sample.sampling_rate,
            buffer.channels == sample.number_of_channels,
    {
        AudioBuffer {
            bytes: bytes_of_samples(&sample.data.0),
            format: AUDIO_FORMAT,
            layout: AUDIO_LAYOUT,
            rate: sample.sampling_rate,
            channels: sample.number_of_channels,
        }
    }
}

} // verus!
