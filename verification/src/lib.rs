//! Recording-session state machine and audio-to-transcript pipeline.
//!
//! The library owns the logic of a single process-wide dictation session:
//! the start/stop lifecycle, the ordered hand-off of captured audio chunks
//! from the native capture callback to a single consumer, and the
//! interpretation of the remote speech-to-text service's responses. The
//! native capture subsystem and the HTTP transport are external
//! collaborators driven by the host layer; every decision the session makes
//! about their outcomes is stated and verified here.

pub mod client;
pub mod pipeline;
pub mod session;
