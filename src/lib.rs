//! Tick-driven automation of the HEXA booster exchange workflow: a dwell
//! timer, a keystroke plan for the requested amount, and the phase machine
//! that consumes anchor lookups and emits input intents.

pub mod timeout;
pub mod geometry;
pub mod keys;
pub mod amount;
pub mod exchange_booster;
pub mod character;
pub mod dataset;
