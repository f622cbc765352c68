//! Core of a desktop media player: the playback synchronization and
//! buffering pipeline.
//!
//! The library models every quantity as a plain integer so that the whole
//! pipeline can be reasoned about exactly:
//!
//! * presentation timestamps (PTS) are microseconds in `i64`;
//! * volumes and gains are linear factors scaled by 1,000,000 (millionths);
//! * playback speed is scaled by 1,000 (permille);
//! * raw audio samples travel through the pipeline as opaque 32-bit words
//!   (the bit patterns of the samples); converting them to and from the
//!   device's native sample type is the embedder's concern.
//!
//! Decoding, rendering and device output are external capabilities: the
//! library decides, the embedder performs.

pub mod audio;
pub mod config;
pub mod controller;
pub mod device;
pub mod error;
pub mod frame;
pub mod frame_queue;
pub mod media;
pub mod render_queue;
pub mod ring;
pub mod state;
pub mod sync;
pub mod util;
pub mod volume;
pub mod window;
