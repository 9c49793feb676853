//! The audio device. The engine supports one per process, so a process keeps
//! one value of this type for as long as the engine runs.
//!
//! The engine starts and stops the capturer and the renderer and reads the
//! settings through a fixed dispatch table, which is installed right after the
//! engine starts, whether or not the application supplies audio of its own.

use vstd::prelude::*;
use crate::context::Context;
use crate::engine::EngineCall;
use crate::enums::OtcBool;
use crate::listener::ListenerId;

verus! {

/// Failures of the audio device.
#[derive(Clone, Copy, Debug, PartialEq, Eq)]
pub enum AudioDeviceError {
    /// The process has no audio device yet.
    MissingAudioDevice,
    /// The audio device was already initialized.
    InitializationFailure,
    /// The render listeners were already set; they cannot be replaced.
    RenderCallbacksOverrideNotAllowed,
    /// The capture listeners were already set; they cannot be replaced.
    CaptureCallbacksOverrideNotAllowed,
}

/// Raw audio samples.
#[derive(Debug)]
pub struct AudioSampleData(pub Vec<i16>);

/// Audio samples with the settings that they were rendered with.
#[derive(Debug)]
pub struct AudioSample {
    pub data: AudioSampleData,
    pub sampling_rate: i32,
    pub number_of_channels: i32,
}

/// Settings of one direction of the audio device.
#[derive(Clone, Copy, Debug, PartialEq, Eq)]
pub struct AudioDeviceSettings {
    pub sampling_rate: i32,
    pub number_of_channels: i32,
}

/// The settings that a direction has unless told otherwise: one channel at
/// 44100 samples per second.
pub open spec fn default_audio_settings() -> AudioDeviceSettings {
    AudioDeviceSettings { sampling_rate: 44100, number_of_channels: 1 }
}

impl Default for AudioDeviceSettings {
    fn default() -> (settings: AudioDeviceSettings)
        ensures
            settings == default_audio_settings(),
    {
        AudioDeviceSettings { sampling_rate: 44100, number_of_channels: 1 }
    }
}

/// The listeners of one direction of the audio device: at most one for the
/// start and one for the stop of that direction.
#[derive(Clone, Copy, Debug, PartialEq, Eq)]
pub struct AudioDeviceCallbacks {
    pub start: Option<ListenerId>,
    pub stop: Option<ListenerId>,
}

/// Which entries of the dispatch table the host installs for the audio device.
#[derive(Clone, Copy, Debug, PartialEq, Eq)]
pub struct AudioDeviceTable {
    pub start_capturer: bool,
    pub stop_capturer: bool,
    pub get_capture_settings: bool,
    pub start_renderer: bool,
    pub stop_renderer: bool,
    pub get_render_settings: bool,
}

/// A request of the engine to the audio device.
#[derive(Clone, Copy, Debug, PartialEq, Eq)]
pub enum AudioDeviceRequest {
    StartCapturer,
    StopCapturer,
    StartRenderer,
    StopRenderer,
}

/// One sample to hand to one listener.
#[derive(Debug)]
pub struct SampleDelivery {
    pub listener: ListenerId,
    pub sample: AudioSample,
}

/// What one round of the render loop comes to.
#[derive(Debug)]
pub struct RenderRound {
    /// The listeners to call, in the order in which they were registered, each
    /// with its own copy of the samples.
    pub deliveries: Vec<SampleDelivery>,
    /// How long to wait before the next round, in microseconds: one period.
    pub pause_micros: u64,
}

/// The time between two rounds of the render loop, in microseconds.
pub const RENDER_PERIOD_MICROS: u64 = 10000;

/// The number of samples in one round: a hundredth of a second of every
/// channel. Settings that are not positive ask for nothing.
pub open spec fn samples_per_round(settings: AudioDeviceSettings) -> int {
    let per_channel = settings.sampling_rate as int / 100;
    if per_channel <= 0 || settings.number_of_channels <= 0 {
        0
    } else {
        per_channel * settings.number_of_channels
    }
}

/// The audio device of a process.
#[derive(Debug)]
pub struct AudioDevice {
    capturer_ready: bool,
    capture_settings: AudioDeviceSettings,
    render_running: bool,
    render_settings: AudioDeviceSettings,
    on_audio_sample_callbacks: Vec<ListenerId>,
    render_callbacks: Option<AudioDeviceCallbacks>,
    capture_callbacks: Option<AudioDeviceCallbacks>,
}

impl AudioDevice {
    /// Whether the engine has started the capturer, so that samples are taken.
    pub closed spec fn capturer_ready(self) -> bool {
        self.capturer_ready
    }

    /// Whether the render loop is to keep running.
    pub closed spec fn render_running(self) -> bool {
        self.render_running
    }

    pub closed spec fn capture_settings(self) -> AudioDeviceSettings {
        self.capture_settings
    }

    pub closed spec fn render_settings(self) -> AudioDeviceSettings {
        self.render_settings
    }

    /// The listeners for rendered samples, in the order of their registration.
    pub closed spec fn sample_listeners(self) -> Seq<ListenerId> {
        self.on_audio_sample_callbacks@
    }

    /// The render listeners, once they were set.
    pub closed spec fn render_callbacks(self) -> Option<AudioDeviceCallbacks> {
        self.render_callbacks
    }

    /// The capture listeners, once they were set.
    pub closed spec fn capture_callbacks(self) -> Option<AudioDeviceCallbacks> {
        self.capture_callbacks
    }

    /// A device as it is when the engine has just started.
    pub open spec fn is_fresh(self) -> bool {
        &&& !self.capturer_ready()
        &&& !self.render_running()
        &&& self.capture_settings() == default_audio_settings()
        &&& self.render_settings() == default_audio_settings()
        &&& self.sample_listeners() == Seq::<ListenerId>::empty()
        &&& self.render_callbacks() is None
        &&& self.capture_callbacks() is None
    }

    /// Everything but the named part is as it was.
    pub open spec fn same_but_flags(self, before: AudioDevice) -> bool {
        &&& self.capture_settings() == before.capture_settings()
        &&& self.render_settings() == before.render_settings()
        &&& self.sample_listeners() == before.sample_listeners()
        &&& self.render_callbacks() == before.render_callbacks()
        &&& self.capture_callbacks() == before.capture_callbacks()
    }

    /// The device of a process, together with the request that installs its
    /// dispatch table.
    pub fn new() -> (made: (AudioDevice, EngineCall))
        ensures
            made.0.is_fresh(),
            made.1 == EngineCall::SetAudioDevice,
    {
        (
            AudioDevice {
                capturer_ready: false,
                capture_settings: AudioDeviceSettings::default(),
                render_running: false,
                render_settings: AudioDeviceSettings::default(),
                on_audio_sample_callbacks: Vec::new(),
                render_callbacks: None,
                capture_callbacks: None,
            },
            EngineCall::SetAudioDevice,
        )
    }

    /// The one audio device of the process.
    pub fn get_instance(context: &Context) -> (device: &AudioDevice)
        ensures
            *device == context.audio_device,
    {
        &context.audio_device
    }

    /// The dispatch table of the device: the same six entries, always.
    pub fn table(&self) -> (table: AudioDeviceTable)
        ensures
            table == (AudioDeviceTable {
                start_capturer: true,
                stop_capturer: true,
                get_capture_settings: true,
                start_renderer: true,
                stop_renderer: true,
                get_render_settings: true,
            }),
    {
        AudioDeviceTable {
            start_capturer: true,
            stop_capturer: true,
            get_capture_settings: true,
            start_renderer: true,
            stop_renderer: true,
            get_render_settings: true,
        }
    }

    /// Stops the render loop.
    pub fn stop(&mut self)
        ensures
            !final(self).render_running(),
            final(self).capturer_ready() == old(self).capturer_ready(),
            final(self).same_but_flags(*old(self)),
    {
        self.render_running = false;
    }

    /// Replaces the settings of the capture direction.
    pub fn override_capture_settings(&mut self, settings: AudioDeviceSettings)
        ensures
            final(self).capture_settings() == settings,
            final(self).render_settings() == old(self).render_settings(),
            final(self).capturer_ready() == old(self).capturer_ready(),
            final(self).render_running() == old(self).render_running(),
            final(self).sample_listeners() == old(self).sample_listeners(),
            final(self).render_callbacks() == old(self).render_callbacks(),
            final(self).capture_callbacks() == old(self).capture_callbacks(),
    {
        self.capture_settings = settings;
    }

    /// Replaces the settings of the render direction.
    pub fn override_render_settings(&mut self, settings: AudioDeviceSettings)
        ensures
            final(self).render_settings() == settings,
            final(self).capture_settings() == old(self).capture_settings(),
            final(self).capturer_ready() == old(self).capturer_ready(),
            final(self).render_running() == old(self).render_running(),
            final(self).sample_listeners() == old(self).sample_listeners(),
            final(self).render_callbacks() == old(self).render_callbacks(),
            final(self).capture_callbacks() == old(self).capture_callbacks(),
    {
        self.render_settings = settings;
    }

    /// The settings that the engine reads for the capture direction.
    pub fn get_capture_settings(&self) -> (settings: AudioDeviceSettings)
        ensures
            settings == self.capture_settings(),
    {
        self.capture_settings
    }

    /// The settings that the engine reads for the render direction.
    pub fn get_render_settings(&self) -> (settings: AudioDeviceSettings)
        ensures
            settings == self.render_settings(),
    {
        self.render_settings
    }

    /// Sets the render listeners. This succeeds once; every later attempt fails
    /// and leaves the first listeners in place.
    pub fn set_render_callbacks(&mut self, callbacks: AudioDeviceCallbacks) -> (r: Result<
        (),
        AudioDeviceError,
    >)
        ensures
            r == (if old(self).render_callbacks() is None {
                Ok::<(), AudioDeviceError>(())
            } else {
                Err::<(), AudioDeviceError>(AudioDeviceError::RenderCallbacksOverrideNotAllowed)
            }),
            final(self).render_callbacks() == (if old(self).render_callbacks() is None {
                Some(callbacks)
            } else {
                old(self).render_callbacks()
            }),
            final(self).capture_callbacks() == old(self).capture_callbacks(),
            final(self).capture_settings() == old(self).capture_settings(),
            final(self).render_settings() == old(self).render_settings(),
            final(self).capturer_ready() == old(self).capturer_ready(),
            final(self).render_running() == old(self).render_running(),
            final(self).sample_listeners() == old(self).sample_listeners(),
    {
        if self.render_callbacks.is_some() {
            return Err(AudioDeviceError::RenderCallbacksOverrideNotAllowed);
        }
        self.render_callbacks = Some(callbacks);
        Ok(())
    }

    /// Sets the capture listeners. This succeeds once; every later attempt fails
    /// and leaves the first listeners in place.
    pub fn set_capture_callbacks(&mut self, callbacks: AudioDeviceCallbacks) -> (r: Result<
        (),
        AudioDeviceError,
    >)
        ensures
            r == (if old(self).capture_callbacks() is None {
                Ok::<(), AudioDeviceError>(())
            } else {
                Err::<(), AudioDeviceError>(AudioDeviceError::CaptureCallbacksOverrideNotAllowed)
            }),
            final(self).capture_callbacks() == (if old(self).capture_callbacks() is None {
                Some(callbacks)
            } else {
                old(self).capture_callbacks()
            }),
            final(self).render_callbacks() == old(self).render_callbacks(),
            final(self).capture_settings() == old(self).capture_settings(),
            final(self).render_settings() == old(self).render_settings(),
            final(self).capturer_ready() == old(self).capturer_ready(),
            final(self).render_running() == old(self).render_running(),
            final(self).sample_listeners() == old(self).sample_listeners(),
    {
        if self.capture_callbacks.is_some() {
            return Err(AudioDeviceError::CaptureCallbacksOverrideNotAllowed);
        }
        self.capture_callbacks = Some(callbacks);
        Ok(())
    }

    /// Registers one more listener for rendered samples.
    pub fn set_on_audio_sample_callback(&mut self, callback: ListenerId)
        ensures
            final(self).sample_listeners() == old(self).sample_listeners().push(callback),
            final(self).capturer_ready() == old(self).capturer_ready(),
            final(self).render_running() == old(self).render_running(),
            final(self).capture_settings() == old(self).capture_settings(),
            final(self).render_settings() == old(self).render_settings(),
            final(self).render_callbacks() == old(self).render_callbacks(),
            final(self).capture_callbacks() == old(self).capture_callbacks(),
    {
        self.on_audio_sample_callbacks.push(callback);
    }

    /// The request that hands captured samples to the engine. Until the engine
    /// has started the capturer the samples are dropped, and there is no request.
    pub fn push_audio_sample(&self, data: AudioSampleData) -> (call: Option<EngineCall>)
        ensures
            call == (if self.capturer_ready() {
                Some((EngineCall::AudioWriteCaptureData { samples: data.0 }))
            } else {
                None::<EngineCall>
            }),
    {
        if !self.capturer_ready {
            return None;
        }
        Some(EngineCall::AudioWriteCaptureData { samples: data.0 })
    }

    /// The listener of the direction that a request of the engine is about.
    pub open spec fn listener_of(self, request: AudioDeviceRequest) -> Option<ListenerId> {
        match request {
            AudioDeviceRequest::StartCapturer => match self.capture_callbacks() {
                Some(c) => c.start,
                None => None,
            },
            AudioDeviceRequest::StopCapturer => match self.capture_callbacks() {
                Some(c) => c.stop,
                None => None,
            },
            AudioDeviceRequest::StartRenderer => match self.render_callbacks() {
                Some(c) => c.start,
                None => None,
            },
            AudioDeviceRequest::StopRenderer => match self.render_callbacks() {
                Some(c) => c.stop,
                None => None,
            },
        }
    }

    /// Serves a request of the engine: the capturer is ready between its start
    /// and its stop, and the render loop runs between the renderer's start and
    /// its stop. Every request succeeds, and the listener of its direction, if
    /// one was set, is to be told.
    pub fn serve(&mut self, request: AudioDeviceRequest) -> (served: (i32, Option<ListenerId>))
        ensures
            served.0 == 1,
            served.1 == old(self).listener_of(request),
            final(self).capturer_ready() == (match request {
                AudioDeviceRequest::StartCapturer => true,
                AudioDeviceRequest::StopCapturer => false,
                _ => old(self).capturer_ready(),
            }),
            final(self).render_running() == (match request {
                AudioDeviceRequest::StartRenderer => true,
                AudioDeviceRequest::StopRenderer => false,
                _ => old(self).render_running(),
            }),
            final(self).same_but_flags(*old(self)),
    {
        let listener = match request {
            AudioDeviceRequest::StartCapturer => {
                self.capturer_ready = true;
                match self.capture_callbacks {
                    Some(c) => c.start,
                    None => None,
                }
            },
            AudioDeviceRequest::StopCapturer => {
                self.capturer_ready = false;
                match self.capture_callbacks {
                    Some(c) => c.stop,
                    None => None,
                }
            },
            AudioDeviceRequest::StartRenderer => {
                self.render_running = true;
                match self.render_callbacks {
                    Some(c) => c.start,
                    None => None,
                }
            },
            AudioDeviceRequest::StopRenderer => {
                self.render_running = false;
                match self.render_callbacks {
                    Some(c) => c.stop,
                    None => None,
                }
            },
        };
        (OtcBool::from_result(Ok(())).raw(), listener)
    }

    /// The number of samples to ask the engine for in one round of the render
    /// loop.
    pub fn round_size(&self) -> (n: u64)
        ensures
            n == samples_per_round(self.render_settings()),
    {
        let per_channel: i64 = (self.render_settings.sampling_rate / 100) as i64;
        let channels: i64 = self.render_settings.number_of_channels as i64;
        if per_channel <= 0 || channels <= 0 {
            0
        } else {
            assert(per_channel * channels <= 0x7fff_ffff * 0x7fff_ffff) by (nonlinear_arith)
                requires
                    0 < per_channel <= 0x7fff_ffff,
                    0 < channels <= 0x7fff_ffff,
            ;
            assert(per_channel * channels > 0) by (nonlinear_arith)
                requires
                    0 < per_channel,
                    0 < channels,
            ;
            (per_channel * channels) as u64
        }
    }

    /// The first half of a round of the render loop: the request for rendered
    /// samples, or nothing once the loop was stopped, which ends it.
    pub fn render_request(&self) -> (call: Option<EngineCall>)
        ensures
            call == (if self.render_running() {
                Some(
                    (EngineCall::AudioReadRenderData {
                        count: samples_per_round(self.render_settings()) as u64,
                    }),
                )
            } else {
                None::<EngineCall>
            }),
    {
        if !self.render_running {
            return None;
        }
        Some(EngineCall::AudioReadRenderData { count: self.round_size() })
    }

    /// The second half of a round: what to do with the samples that the engine
    /// rendered. When it rendered none, nobody is called. Otherwise every
    /// registered listener gets the samples with the render settings, in the
    /// order of registration. Either way the loop pauses for one period, so
    /// that the rounds keep their cadence.
    pub fn render_round(&self, data: &Vec<i16>) -> (round: RenderRound)
        ensures
            round.pause_micros == RENDER_PERIOD_MICROS,
            data@.len() == 0 ==> round.deliveries@.len() == 0,
            data@.len() > 0 ==> {
                &&& round.deliveries@.len() == self.sample_listeners().len()
                &&& forall|i: int|
                    0 <= i < round.deliveries@.len() ==> {
                        &&& (#[trigger] round.deliveries@[i]).listener == self.sample_listeners()[i]
                        &&& round.deliveries@[i].sample.data.0@ == data@
                        &&& round.deliveries@[i].sample.sampling_rate
                            == self.render_settings().sampling_rate
                        &&& round.deliveries@[i].sample.number_of_channels
                            == self.render_settings().number_of_channels
                    }
            },
    {
        let mut deliveries: Vec<SampleDelivery> = Vec::new();
        if data.len() == 0 {
            return RenderRound { deliveries, pause_micros: RENDER_PERIOD_MICROS };
        }
        let mut i: usize = 0;
        while i < self.on_audio_sample_callbacks.len()
            invariant
                i <= self.on_audio_sample_callbacks@.len(),
                deliveries@.len() == i,
                forall|j: int|
                    0 <= j < i ==> {
                        &&& (#[trigger] deliveries@[j]).listener == self.on_audio_sample_callbacks@[j]
                        &&& deliveries@[j].sample.data.0@ == data@
                        &&& deliveries@[j].sample.sampling_rate == self.render_settings.sampling_rate
                        &&& deliveries@[j].sample.number_of_channels
                            == self.render_settings.number_of_channels
                    },
            decreases self.on_audio_sample_callbacks@.len() - i,
        {
            let copy = copy_samples(data);
            deliveries.push(
                SampleDelivery {
                    listener: self.on_audio_sample_callbacks[i],
                    sample: AudioSample {
                        data: AudioSampleData(copy),
                        sampling_rate: self.render_settings.sampling_rate,
                        number_of_channels: self.render_settings.number_of_channels,
                    },
                },
            );
            i += 1;
        }
        RenderRound { deliveries, pause_micros: RENDER_PERIOD_MICROS }
    }
}

/// A copy of a run of samples.
pub fn copy_samples(data: &Vec<i16>) -> (copy: Vec<i16>)
    ensures
        copy@ == data@,
{
    let mut copy: Vec<i16> = Vec::new();
    let mut i: usize = 0;
    while i < data.len()
        invariant
            i <= data@.len(),
            copy@ == data@.subrange(0, i as int),
        decreases data@.len() - i,
    {
        copy.push(data[i]);
        proof {
            assert(copy@ =~= data@.subrange(0, i + 1));
        }
        i += 1;
    }
    proof {
        assert(copy@ =~= data@);
    }
    copy
}

} // verus!
