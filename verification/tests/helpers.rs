use opentok::audio_device::{AudioDeviceSettings, AudioSample, AudioSampleData};
use opentok::utils::capturer::{AudioCapturer, Capturer, CapturerBuffer, SAMPLES_PER_PULL};
use opentok::utils::common::{
    gst_from_otc_format, try_gst_from_otc_format, Credentials, MissingElement, VideoFormat,
};
use opentok::utils::publisher::Publisher;
use opentok::utils::renderer::Renderer;
use opentok::utils::subscriber::{half_up, Subscriber};
use opentok::video_capturer::VideoCapturerSettings;
use opentok::video_frame::{FrameFormat, FramePlane};

fn credentials() -> Credentials {
    Credentials {
        api_key: String::from("47000001"),
        session_id: String::from("1_MX40"),
        token: String::from("T1=="),
    }
}

#[test]
fn pipeline_formats() {
    assert_eq!(gst_from_otc_format(FrameFormat::Abgr32), VideoFormat::Abgr);
    assert_eq!(gst_from_otc_format(FrameFormat::Argb32), VideoFormat::Argb);
    assert_eq!(gst_from_otc_format(FrameFormat::Bgra32), VideoFormat::Bgra);
    assert_eq!(gst_from_otc_format(FrameFormat::Nv12), VideoFormat::Nv12);
    assert_eq!(gst_from_otc_format(FrameFormat::Nv21), VideoFormat::Nv21);
    assert_eq!(gst_from_otc_format(FrameFormat::Rgba32), VideoFormat::Rgba);
    assert_eq!(gst_from_otc_format(FrameFormat::Uyvy), VideoFormat::Uyvy);
    assert_eq!(gst_from_otc_format(FrameFormat::Yuv420P), VideoFormat::I420);
    assert_eq!(gst_from_otc_format(FrameFormat::Yuy2), VideoFormat::Yuy2);
    assert_eq!(try_gst_from_otc_format(FrameFormat::Mjpeg), None);
    assert_eq!(try_gst_from_otc_format(FrameFormat::Rgb24), None);
    assert_eq!(try_gst_from_otc_format(FrameFormat::__Unknown), None);
    assert_eq!(MissingElement("appsink").0, "appsink");
    assert_eq!(Credentials::default().api_key, "");
}

#[test]
fn stream_address() {
    let publisher = Publisher::new(credentials(), Some(5));
    assert_eq!(publisher.run_for(), Some(5));
    assert_eq!(publisher.get_credentials().token, "T1==");
    assert_eq!(publisher.url("stream-A"), "opentok://1_MX40/stream-A?key=47000001&token=T1==");
    assert_eq!(publisher.url(""), "opentok://1_MX40/?key=47000001&token=T1==");
}

#[test]
fn subscriber_takes_the_stream_it_wants() {
    let any = Subscriber::new(credentials(), None, None, None);
    assert!(any.accepts(&String::from("A")));
    assert_eq!(any.run_for(), None);
    let one = Subscriber::new(credentials(), Some(3), Some(String::from("A")), None);
    assert!(one.accepts(&String::from("A")));
    assert!(!one.accepts(&String::from("B")));
    let some = Subscriber::new(
        credentials(),
        None,
        None,
        Some(vec![String::from("B"), String::from("C")]),
    );
    assert!(some.accepts(&String::from("A")));
    assert!(!some.accepts(&String::from("B")));
    assert!(!some.accepts(&String::from("C")));
    let clash = Subscriber::new(
        credentials(),
        None,
        Some(String::from("A")),
        Some(vec![String::from("A")]),
    );
    assert!(!clash.accepts(&String::from("A")));
    assert_eq!(clash.get_credentials().api_key, "47000001");
}

#[test]
fn plane_layout_of_yuv420() {
    assert_eq!(Subscriber::get_plane_size(FramePlane::Y, 1280, 720), 921600);
    assert_eq!(Subscriber::get_plane_size(FramePlane::U, 1280, 720), 230400);
    assert_eq!(Subscriber::get_plane_size(FramePlane::V, 1280, 720), 230400);
    assert_eq!(Subscriber::get_plane_size(FramePlane::Y, 5, 3), 15);
    assert_eq!(Subscriber::get_plane_size(FramePlane::U, 5, 3), 6);
    assert_eq!(Subscriber::get_plane_size(FramePlane::V, 0, 0), 0);
    assert_eq!(half_up(5), 3);
    assert_eq!(half_up(4), 2);
    assert_eq!(half_up(u32::MAX), 0x8000_0000);
    assert_eq!(Subscriber::plane_offsets(1280, 720), Some([0, 921600, 1152000]));
    assert_eq!(Subscriber::plane_offsets(5, 3), Some([0, 15, 21]));
    assert_eq!(Subscriber::plane_offsets(0, 0), Some([0, 0, 0]));
    assert_eq!(Subscriber::plane_offsets(65536, 65536), None);
    assert_eq!(Subscriber::plane_offsets(u32::MAX, u32::MAX), None);
}

#[test]
fn video_capturer_description() {
    let capturer = Capturer::new(&VideoCapturerSettings::default()).unwrap();
    let caps = capturer.video_caps();
    assert_eq!(caps.format, VideoFormat::I420);
    assert_eq!((caps.width, caps.height, caps.framerate), (1280, 720, 30));
    let mut settings = VideoCapturerSettings::default();
    settings.format = FrameFormat::Mjpeg;
    assert!(Capturer::new(&settings).is_none());
    assert_eq!(capturer.pull_buffer(vec![1, 2, 3]).as_bytes(), &vec![1, 2, 3]);
}

#[test]
fn bytes_are_read_as_samples() {
    let samples: Vec<i16> = vec![1, -2, 300, i16::MIN];
    let mut bytes: Vec<u8> = Vec::new();
    for sample in &samples {
        bytes.extend_from_slice(&sample.to_ne_bytes());
    }
    match CapturerBuffer(bytes.clone()).as_samples() {
        Some(read) => assert_eq!(read, samples),
        None => {}
    }
    bytes.push(0);
    assert_eq!(CapturerBuffer(bytes).as_samples(), None);
    assert_eq!(CapturerBuffer(vec![]).as_samples(), Some(vec![]));
}

#[test]
fn samples_are_the_bytes_in_one_byte_order() {
    let bytes: Vec<u8> = vec![0x01, 0x02, 0xff, 0x7f, 0x00, 0x80];
    let low_first: Vec<i16> = vec![0x0201, 0x7fff, i16::MIN];
    let high_first: Vec<i16> = vec![0x0102, -129, 0x0080];
    match CapturerBuffer(bytes).as_samples() {
        Some(read) => assert!(read == low_first || read == high_first),
        None => {}
    }
}

#[test]
fn what_was_read_is_framed_or_dropped() {
    let capturer = AudioCapturer::new(&AudioDeviceSettings { sampling_rate: 48000, number_of_channels: 1 });
    let pulled: Vec<i16> = (0..SAMPLES_PER_PULL as i16).map(|s| s - 200).collect();
    assert!(capturer.frame_pulled(None).is_none());
    assert!(capturer.frame_pulled(Some(vec![])).is_none());
    assert!(capturer.frame_pulled(Some(vec![7; SAMPLES_PER_PULL - 1])).is_none());
    assert!(capturer.frame_pulled(Some(vec![7; SAMPLES_PER_PULL + 1])).is_none());
    let framed = capturer.frame_pulled(Some(pulled.clone())).unwrap().0;
    assert_eq!(framed.len(), 480);
    assert_eq!(&framed[..SAMPLES_PER_PULL], &pulled[..]);
    assert!(framed[SAMPLES_PER_PULL..].iter().all(|s| *s == 0));
    let small = AudioCapturer::new(&AudioDeviceSettings { sampling_rate: 8000, number_of_channels: 1 });
    assert!(small.frame_pulled(Some(pulled)).is_none());
}

#[test]
fn pulled_audio_is_framed_with_silence() {
    let capturer = AudioCapturer::new(&AudioDeviceSettings { sampling_rate: 48000, number_of_channels: 1 });
    assert_eq!(capturer.buffer_len(), 480);
    let pulled: Vec<i16> = (0..SAMPLES_PER_PULL as i16).collect();
    let framed = capturer.frame(&pulled).0;
    assert_eq!(framed.len(), 480);
    assert_eq!(&framed[..SAMPLES_PER_PULL], &pulled[..]);
    assert!(framed[SAMPLES_PER_PULL..].iter().all(|s| *s == 0));

    let exact = AudioCapturer::new(&AudioDeviceSettings::default());
    assert_eq!(exact.buffer_len(), 441);
    assert_eq!(exact.frame(&pulled).0, pulled);

    assert!(capturer.pull_buffer(None).is_none());
    assert!(capturer.pull_buffer(Some(CapturerBuffer(vec![0; 10]))).is_none());
    assert!(capturer.pull_buffer(Some(CapturerBuffer(vec![0; 883]))).is_none());
    let small = AudioCapturer::new(&AudioDeviceSettings { sampling_rate: 8000, number_of_channels: 1 });
    assert_eq!(small.buffer_len(), 80);
    assert!(small.pull_buffer(Some(CapturerBuffer(vec![0; 882]))).is_none());
    let mut bytes: Vec<u8> = Vec::new();
    for sample in &pulled {
        bytes.extend_from_slice(&sample.to_ne_bytes());
    }
    match capturer.pull_buffer(Some(CapturerBuffer(bytes))) {
        Some(data) => {
            assert_eq!(data.0.len(), 480);
            assert_eq!(&data.0[..SAMPLES_PER_PULL], &pulled[..]);
        }
        None => {}
    }
    let silent = AudioCapturer::new(&AudioDeviceSettings { sampling_rate: -1, number_of_channels: 2 });
    assert_eq!(silent.buffer_len(), 0);
}

#[test]
fn audio_sample_becomes_a_buffer_of_bytes() {
    let renderer = Renderer::new();
    let sample = AudioSample {
        data: AudioSampleData(vec![1, -2, 300]),
        sampling_rate: 44100,
        number_of_channels: 2,
    };
    let buffer = renderer.render_audio_sample(&sample);
    assert_eq!(buffer.bytes.len(), 6);
    let mut expected: Vec<u8> = Vec::new();
    for s in [1i16, -2, 300] {
        expected.extend_from_slice(&s.to_ne_bytes());
    }
    assert_eq!(buffer.bytes, expected);
    let low_first: Vec<u8> = vec![1, 0, 0xfe, 0xff, 0x2c, 0x01];
    let high_first: Vec<u8> = vec![0, 1, 0xff, 0xfe, 0x01, 0x2c];
    assert!(buffer.bytes == low_first || buffer.bytes == high_first);
    assert_eq!(buffer.format, "S16LE");
    assert_eq!(buffer.layout, "interleaved");
    assert_eq!(buffer.rate, 44100);
    assert_eq!(buffer.channels, 2);
}

#[test]
fn video_frame_becomes_a_described_buffer() {
    let renderer = Renderer::new();
    let buffer = renderer
        .push_video_buffer(vec![9; 6], FrameFormat::Yuv420P, 2, 2, vec![0, 4, 5], vec![2, 1, 1])
        .unwrap();
    assert_eq!(buffer.bytes, vec![9; 6]);
    assert_eq!(buffer.format, VideoFormat::I420);
    assert_eq!((buffer.width, buffer.height), (2, 2));
    assert_eq!(buffer.offset, vec![0, 4, 5]);
    assert_eq!(buffer.stride, vec![2, 1, 1]);
    assert!(renderer
        .push_video_buffer(vec![9; 6], FrameFormat::Compressed, 2, 2, vec![], vec![])
        .is_none());
}
