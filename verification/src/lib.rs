//! FlowLapse: the decisions of a local-first timelapse daemon, with their
//! contracts proved. The daemon itself (HTTP API, FFmpeg processes, files,
//! timers) lives in `app/` and calls into these modules.
pub mod api;
pub mod config;
pub mod db;
pub mod media;
pub mod models;
pub mod text;
pub mod workers;
