//! Verified core of a transport-stream player: TS framing, PSI (PAT/PMT)
//! parsing, PES timestamp extraction, and the pacing decisions that govern
//! when buffered packets are released to the sink.

pub mod application;
pub mod bytes;
pub mod config;
pub mod es;
pub mod misc;
pub mod mpeg;
pub mod ts;
