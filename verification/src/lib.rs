//! A small N-body gravitational simulation engine.
//!
//! The engine advances a set of massive point bodies under pairwise
//! inverse-square attraction with a fixed-step, semi-implicit Euler
//! integrator, and can forecast future trajectories from a snapshot
//! without disturbing the live body store.
//!
//! All quantities are fixed-point integers: a raw value of `units::SCALE`
//! stands for one world unit (or one second).  This keeps every kernel
//! computation exact and lets each operation carry a full functional
//! contract.

use vstd::prelude::*;

pub mod body;
pub mod config;
pub mod forecast;
pub mod integrator;
pub mod scheduler;
pub mod simulation;
pub mod units;
pub mod vec3;

verus! {

} // verus!
