//! The parts of the capture and render helpers that compute: formats and
//! descriptions of media, the framing of audio samples, the layout of planes,
//! and the choice of streams. The pipelines themselves belong to the host.

pub mod capturer;
pub mod common;
pub mod publisher;
pub mod renderer;
pub mod subscriber;
