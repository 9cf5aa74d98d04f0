//! Audio: capture, framing and pacing.

pub mod audio_clock;
pub mod frame;
pub mod oss_capture;
pub mod oss_capture_laws;
