//! Detection and replay of beeps for a relay device: a microphone sample
//! stream is turned into beep events, valid ones are replayed on a buzzer,
//! and the input is gated while a replay sounds.

pub mod detector;
pub mod gate;
pub mod policy;
pub mod relay;
