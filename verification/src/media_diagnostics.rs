//! Media diagnostics: what is recorded about a running session.

pub mod decode_timeline;
pub mod laws;
pub mod operation;
pub mod progress;
pub mod webrtc_monitor;
pub mod writer;
