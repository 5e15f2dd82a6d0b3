//! Decision logic of the Liminal launcher.
//!
//! The launcher swaps one running game for another behind an overlay, so that the
//! player sees a loading screen and no restart. Nothing here does I/O: whoever
//! runs the launcher hands in what was read, received or measured, and carries out
//! what comes back.

pub mod discovery;
pub mod fade;
pub mod frames;
pub mod geometry;
pub mod handshake;
pub mod jvm_ipc;
pub mod mc_swap;
pub mod overlay;
pub mod paint;
pub mod progress;
pub mod swap;
pub mod text;
pub mod token;
pub mod transition;
pub mod wire;
