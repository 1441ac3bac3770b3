//! Core of a metronome: a beat state machine that turns classified timer
//! ticks into click commands, a tick subdivider that alternates off-beats
//! and beats, and the decision logic of the audio worker that resolves a
//! command and the most recent volume into one play request.
//!
//! The surrounding shell owns the timer, the channels and the audio device;
//! this crate owns every decision: which click to play, when the bar wraps,
//! which volume the next sound carries.

pub mod engine;
pub mod player;
pub mod ticker;
