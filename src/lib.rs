//! Glue between device types written in Rust and a host object model that
//! dispatches through its own class records: reset phases, realization,
//! properties and clocks.
//!
//! Class records and the host-side bookkeeping that the bridge touches are
//! modelled as plain values, so that what the bridge installs and what the
//! host will call can be stated and proved.

pub mod object;
pub mod reset;
pub mod device;
pub mod clock;
pub mod state;
