//! Verified core of a keyboard-input synthesizer: a resolver from characters
//! to virtual-key codes with a shift flag, and a sequencer that turns text
//! into the exact stream of key events and delays to replay.

pub mod keys;
pub mod laws;
pub mod plan;
pub mod resolver;
