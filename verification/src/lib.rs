//! Safe, pointer-free core of a binding to a callback-driven native
//! real-time communications engine.
//!
//! The crate never talks to the engine itself. Every operation that needs the
//! engine returns the request to issue as an [`engine::EngineCall`], and every
//! answer or event of the engine enters as a plain value. What is decided here
//! is which request is issued when, how an event that names only a native
//! pointer finds the object it belongs to, and in which order handles are
//! given back.

pub mod audio_device;
pub mod codes;
pub mod connection;
pub mod context;
pub mod engine;
pub mod enums;
pub mod handle;
pub mod instances;
pub mod listener;
pub mod log;
pub mod publisher;
pub mod registry;
pub mod session;
pub mod stream;
pub mod subscriber;
pub mod utils;
pub mod video_capturer;
pub mod video_frame;

pub use crate::context::{deinit, init, Context};
pub use crate::enums::{IntoResult, OtcBool, OtcError, OtcResult};
