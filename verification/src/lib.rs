//! Decision logic of a low-latency window streaming tool.

pub mod addresses;
pub mod auth;
pub mod cli;
pub mod connection;
pub mod encoder_characterization;
pub mod firewall;
pub mod json;
pub mod media_diagnostics;
pub mod network_diagnostics;
pub mod overlay;
pub mod peer;
pub mod pipeline;
pub mod pipeline_run;
pub mod targets;
pub mod text;
pub mod text_ops;
pub mod troubleshoot;
pub mod webrtc;
