//! Core of a pluggable music playback engine.
//!
//! The library models the subsystems that make the engine tick and
//! proves their contracts:
//!
//! * a generation-tagged ring buffer feeding a realtime output callback
//!   ([`ring`], [`index`]),
//! * the playback engine that decodes, resamples and fills the ring, and
//!   serves data requests from the output callback ([`playback`]),
//! * the playlist driver that walks a directory tree, probes decoder
//!   plugins and chains playback ([`playlist`]),
//! * the plugin registry that validates and orders loaded plugins
//!   ([`registry`]).
//!
//! Dynamic library loading, threads, channels and the plugin FFI surface
//! live outside the library; the library receives their outcomes as plain
//! values and decides everything else.

pub mod abi;
pub mod format;
pub mod index;
pub mod output;
pub mod playback;
pub mod playlist;
pub mod registry;
pub mod ring;
pub mod services;
pub mod settings;

pub use format::AudioFormat;
pub use format::AudioStreamFormat;
pub use format::get_byte_size_format;
pub use index::Index;
pub use ring::RingBuffer;
