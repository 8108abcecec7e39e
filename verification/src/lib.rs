//! Verified core of a satellite orbit simulation: the control surface, the
//! simulation clock, orbital element intake, propagation and the per-tick
//! state machine.

pub mod catalog;
pub mod clock;
pub mod control;
pub mod elements;
pub mod error;
pub mod frame;
pub mod propagator;
pub mod simulation;
