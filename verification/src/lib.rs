//! Verified core of a command-line transcription driver.
//!
//! The driver turns an audio or video file into a transcript by steering
//! three external programs: a media transcoder that normalizes the input to
//! 16 kHz WAV, a checkout-and-build toolchain that provisions the speech
//! engine, and the engine binary itself. Everything the driver decides —
//! which commands to run, with which argument vectors, in which order, and
//! how failures are classified — lives here and is verified. The thin
//! process shell that actually spawns subprocesses consumes the decisions
//! of [`driver::Driver`] one action at a time.

pub mod cmd;
pub mod driver;
pub mod model;
pub mod paths;
