//! A daily screen-time budget: a countdown that a one-second tick drives,
//! two staged warnings, a block when the allowance is used up, a
//! rate-limited pause, and passcode-gated ways out of the block.
//!
//! The library decides and the caller acts. Every operation takes the state,
//! the settings store and a reading of the clock, changes the first two, and
//! queues the display commands that follow from the change.

pub mod admin;
pub mod budget;
pub mod clock;
pub mod decimal;
pub mod display;
pub mod gate;
pub mod menu;
pub mod pause;
pub mod remote;
pub mod seconds;
pub mod settings;
pub mod state;
pub mod store;
