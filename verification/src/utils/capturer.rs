//! Framing of what the capture pipelines deliver.

use vstd::prelude::*;
use byte_slice_cast::AsSliceOf;
use crate::audio_device::{samples_per_round, AudioDeviceSettings, AudioSampleData};
use crate::utils::common::{pipeline_format, try_gst_from_otc_format, VideoFormat};
use crate::video_capturer::VideoCapturerSettings;

verus! {

/// The number of samples that the audio source delivers in one buffer.
pub const SAMPLES_PER_PULL: usize = 441;

/// The 16-bit sample made of a low and a high byte, in two's complement.
pub open spec fn sample_of(low: u8, high: u8) -> i16 {
    let unsigned = high as int * 256 + low as int;
    if unsigned >= 32768 {
        (unsigned - 65536) as i16
    } else {
        unsigned as i16
    }
}

/// The samples are the bytes read two at a time, every sample with its low
/// byte first or every sample with its high byte first.
pub open spec fn reads_as(bytes: Seq<u8>, samples: Seq<i16>, low_first: bool) -> bool {
    &&& samples.len() * 2 == bytes.len()
    &&& forall|i: int|
        0 <= i < samples.len() ==> #[trigger] samples[i] == (if low_first {
            sample_of(bytes[2 * i], bytes[2 * i + 1])
        } else {
            sample_of(bytes[2 * i + 1], bytes[2 * i])
        })
}

/// The samples are the bytes read two at a time, in one of the two byte orders.
pub open spec fn reads_either(bytes: Seq<u8>, samples: Seq<i16>) -> bool {
    reads_as(bytes, samples, true) || reads_as(bytes, samples, false)
}

/// What reading a run of bytes as 16-bit samples can come to. An odd number of
/// bytes is never read. No bytes are always read, as no samples. Any other run
/// may be refused for where it lies in memory; when it is read, the samples are
/// the bytes two at a time in the machine's byte order, which is one of the two.
pub open spec fn cast_outcome(bytes: Seq<u8>, outcome: Option<Seq<i16>>) -> bool {
    &&& bytes.len() % 2 != 0 ==> outcome is None
    &&& bytes.len() == 0 ==> outcome == Some(Seq::<i16>::empty())
    &&& outcome matches Some(samples) ==> reads_as(bytes, samples, true) || reads_as(
        bytes,
        samples,
        false,
    )
}

/// The samples of an outcome, as a sequence.
pub open spec fn outcome_of(read: Option<Vec<i16>>) -> Option<Seq<i16>> {
    match read {
        Some(samples) => Some(samples@),
        None => None,
    }
}

/// `AsSliceOf::as_slice_of::<i16>`: reads a run of bytes as 16-bit samples in
/// the machine's byte order. The cast is refused when the number of bytes is
/// odd, and may be refused for where the bytes lie in memory; no bytes are
/// always read, as no samples. When the cast is made, there is one sample for
/// every two bytes, and each sample is its two bytes in the machine's order.
#[verifier::external_body]
fn samples_of_bytes(bytes: &Vec<u8>) -> (r: Option<Vec<i16>>)
    ensures
        bytes@.len() % 2 != 0 ==> r is None,
        bytes@.len() == 0 ==> r is Some,
        cast_outcome(bytes@, outcome_of(r)),
{
    bytes.as_slice_of::<i16>().ok().map(|samples| samples.to_vec())
}

/// One buffer pulled from a capture pipeline.
#[derive(Debug)]
pub struct CapturerBuffer(pub Vec<u8>);

impl CapturerBuffer {
    /// The buffer as bytes.
    pub fn as_bytes(&self) -> (bytes: &Vec<u8>)
        ensures
            bytes@ == self.0@,
    {
        &self.0
    }

    /// The buffer as 16-bit samples, where it can be read so. An empty buffer
    /// is always read, as no samples; a buffer with an odd number of bytes never
    /// is. When a buffer is read there is one sample for every two bytes, each
    /// sample being its two bytes in the machine's byte order.
    pub fn as_samples(&self) -> (r: Option<Vec<i16>>)
        ensures
            cast_outcome(self.0@, outcome_of(r)),
            self.0@.len() % 2 != 0 ==> r is None,
            self.0@.len() == 0 ==> outcome_of(r) == Some(Seq::<i16>::empty()),
            r matches Some(samples) ==> samples@.len() * 2 == self.0@.len(),
    {
        samples_of_bytes(&self.0)
    }
}

/// What a video capture pipeline is asked to produce.
#[derive(Clone, Copy, Debug, PartialEq, Eq)]
pub struct VideoCaps {
    pub format: VideoFormat,
    pub width: i32,
    pub height: i32,
    /// Frames per second, as a fraction over one.
    pub framerate: i32,
}

/// The video side of capturing: the description of the raw video to produce.
#[derive(Clone, Copy, Debug, PartialEq, Eq)]
pub struct Capturer {
    caps: VideoCaps,
}

impl Capturer {
    /// The raw video that the capturer produces.
    pub closed spec fn caps(self) -> VideoCaps {
        self.caps
    }

    /// A capturer for the settings of a video capturer. The pixel format must
    /// be one that the pipelines handle.
    pub fn new(settings: &VideoCapturerSettings) -> (r: Option<Capturer>)
        ensures
            r matches Some(c) ==> c.caps().width == settings.width && c.caps().height
                == settings.height && c.caps().framerate == settings.fps && Some(c.caps().format)
                == pipeline_format(settings.format),
            r is Some <==> pipeline_format(settings.format) is Some,
    {
        match try_gst_from_otc_format(settings.format) {
            Some(format) => Some(
                Capturer {
                    caps: VideoCaps {
                        format,
                        width: settings.width,
                        height: settings.height,
                        framerate: settings.fps,
                    },
                },
            ),
            None => None,
        }
    }

    /// The raw video that the capturer produces.
    pub fn video_caps(&self) -> (caps: VideoCaps)
        ensures
            caps == self.caps(),
    {
        self.caps
    }

    /// One pulled buffer, handed on as it is.
    pub fn pull_buffer(&self, pulled: Vec<u8>) -> (buffer: CapturerBuffer)
        ensures
            buffer.0@ == pulled@,
    {
        CapturerBuffer(pulled)
    }
}

/// The audio side of capturing: how many samples make one buffer for the
/// engine.
#[derive(Clone, Copy, Debug, PartialEq, Eq)]
pub struct AudioCapturer {
    samples_per_buffer: usize,
}

/// The samples of one buffer for the engine: the pulled samples first, then
/// silence up to the length of the buffer.
pub open spec fn framed(pulled: Seq<i16>, samples_per_buffer: int) -> Seq<i16> {
    Seq::new(
        samples_per_buffer as nat,
        |i: int| if i < pulled.len() {
            pulled[i]
        } else {
            0i16
        },
    )
}

/// What framing makes of the outcome of reading a pulled buffer: the framed
/// samples, if the buffer was read, holds exactly the samples of one pull, and
/// one buffer for the engine is long enough for them; nothing otherwise.
pub open spec fn framed_pull(outcome: Option<Seq<i16>>, samples_per_buffer: int) -> Option<
    Seq<i16>,
> {
    match outcome {
        Some(samples) => if samples.len() == SAMPLES_PER_PULL && samples_per_buffer
            >= SAMPLES_PER_PULL {
            Some(framed(samples, samples_per_buffer))
        } else {
            None
        },
        None => None,
    }
}

/// The data holds exactly these samples, or there is neither.
pub open spec fn holds(data: Option<AudioSampleData>, samples: Option<Seq<i16>>) -> bool {
    match samples {
        Some(expected) => data matches Some(found) && found.0@ == expected,
        None => data is None,
    }
}

impl AudioCapturer {
    /// The number of samples in one buffer for the engine.
    pub closed spec fn samples_per_buffer(self) -> usize {
        self.samples_per_buffer
    }

    /// An audio capturer for settings of the audio device: one buffer holds a
    /// hundredth of a second of every channel.
    pub fn new(settings: &AudioDeviceSettings) -> (capturer: AudioCapturer)
        requires
            samples_per_round(*settings) <= usize::MAX,
        ensures
            capturer.samples_per_buffer() == samples_per_round(*settings),
    {
        let per_channel: i64 = (settings.sampling_rate / 100) as i64;
        let channels: i64 = settings.number_of_channels as i64;
        let samples_per_buffer: usize = if per_channel <= 0 || channels <= 0 {
            0
        } else {
            assert(per_channel * channels <= 0x7fff_ffff * 0x7fff_ffff) by (nonlinear_arith)
                requires
                    0 < per_channel <= 0x7fff_ffff,
                    0 < channels <= 0x7fff_ffff,
            ;
            assert(per_channel * channels > 0) by (nonlinear_arith)
                requires
                    0 < per_channel,
                    0 < channels,
            ;
            (per_channel * channels) as usize
        };
        AudioCapturer { samples_per_buffer }
    }

    /// The number of samples in one buffer for the engine.
    pub fn buffer_len(&self) -> (n: usize)
        ensures
            n == self.samples_per_buffer(),
    {
        self.samples_per_buffer
    }

    /// Frames pulled samples for the engine: the pulled samples, then silence.
    pub fn frame(&self, pulled: &Vec<i16>) -> (data: AudioSampleData)
        requires
            pulled@.len() == SAMPLES_PER_PULL,
            self.samples_per_buffer() >= SAMPLES_PER_PULL,
        ensures
            data.0@ == framed(pulled@, self.samples_per_buffer() as int),
    {
        let mut data: Vec<i16> = Vec::new();
        let mut i: usize = 0;
        while i < self.samples_per_buffer
            invariant
                i <= self.samples_per_buffer,
                data@.len() == i,
                forall|j: int|
                    0 <= j < i ==> #[trigger] data@[j] == (if j < pulled@.len() {
                        pulled@[j]
                    } else {
                        0i16
                    }),
            decreases self.samples_per_buffer - i,
        {
            if i < pulled.len() {
                data.push(pulled[i]);
            } else {
                data.push(0);
            }
            i += 1;
        }
        proof {
            assert(data@ =~= framed(pulled@, self.samples_per_buffer as int));
        }
        AudioSampleData(data)
    }

    /// Frames what reading a pulled buffer came to: the samples that were
    /// read, then silence, if they are exactly the samples of one pull and one
    /// buffer for the engine is long enough for them; nothing otherwise.
    pub fn frame_pulled(&self, read: Option<Vec<i16>>) -> (r: Option<AudioSampleData>)
        ensures
            holds(r, framed_pull(outcome_of(read), self.samples_per_buffer() as int)),
    {
        match read {
            Some(samples) => {
                if samples.len() != SAMPLES_PER_PULL || self.samples_per_buffer < SAMPLES_PER_PULL {
                    None
                } else {
                    Some(self.frame(&samples))
                }
            },
            None => None,
        }
    }

    /// Frames one pulled buffer for the engine: the buffer is read as samples,
    /// and what that came to is framed. So the result is what framing makes of
    /// one of the outcomes that reading this buffer can have. Nothing comes of
    /// it when nothing was pulled, when the buffer cannot be read as samples,
    /// when it does not hold exactly the samples of one pull, or when one
    /// buffer for the engine is too short for them.
    pub fn pull_buffer(&self, pulled: Option<CapturerBuffer>) -> (r: Option<AudioSampleData>)
        ensures
            pulled is None ==> r is None,
            pulled matches Some(buffer) ==> exists|outcome: Option<Seq<i16>>| #[trigger]
                cast_outcome(buffer.0@, outcome) && holds(
                    r,
                    framed_pull(outcome, self.samples_per_buffer() as int),
                ),
            self.samples_per_buffer() < SAMPLES_PER_PULL ==> r is None,
            pulled matches Some(buffer) ==> (buffer.0@.len() != 2 * SAMPLES_PER_PULL ==> r is None),
            r matches Some(data) ==> data.0@.len() == self.samples_per_buffer() && (forall|i: int|
                SAMPLES_PER_PULL <= i < data.0@.len() ==> data.0@[i] == 0i16),
    {
        let buffer = match pulled {
            Some(buffer) => buffer,
            None => {
                return None;
            },
        };
        let read = buffer.as_samples();
        let ghost outcome = outcome_of(read);
        let r = self.frame_pulled(read);
        proof {
            assert(cast_outcome(buffer.0@, outcome) && holds(
                r,
                framed_pull(outcome, self.samples_per_buffer() as int),
            ));
        }
        r
    }
}

} // verus!
