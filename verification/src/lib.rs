//! Game logic for a keyboard-driven ball on turning platforms.
//!
//! The crate holds the rules of the game and nothing of the engine around
//! them. Each frame the host hands in plain values (key transitions, the
//! simulation clock in nanoseconds) and takes plain values back (a force, an
//! impulse, a rotation), which it then applies to its own rigid bodies and
//! transforms. All quantities are integers, so every contract is exact.

pub mod ball;
pub mod input;
pub mod platform;
pub mod vector;
pub mod window;
