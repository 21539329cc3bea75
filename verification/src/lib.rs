//! MoonLit: the decisions of a local-first game clip recorder.
//!
//! A replay buffer keeps the last seconds of encoded video and of two audio
//! stems in memory; a hotkey turns them into a clip. This crate holds what the
//! recorder decides and computes: how settings are read, at which height and
//! rate the buffer runs, how the rings forget, how a window is cut, how a clip
//! is named and delivered. It performs no input or output itself.

pub mod text;
pub mod decimal;
pub mod settings;
pub mod plan;
pub mod options;
pub mod status;
pub mod encoder;
pub mod screen;
pub mod pump;
pub mod ring;
pub mod ts;
pub mod stem;
pub mod audio;
pub mod wav;
pub mod names;
pub mod mux;
pub mod engine;
pub mod clips;
pub mod save;
pub mod hotkey;
