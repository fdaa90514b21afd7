//! A discrete-time, needs-driven agent simulation.
//!
//! A small population of agents ("sims") track decaying needs (food,
//! sleep) and plan and execute multi-step actions against world objects
//! (a food machine, a bed) to satisfy them. The crate provides the
//! per-agent decision engine: the stat-decay model, the
//! single-action-in-flight execution state machine, and the greedy
//! planner that selects the nearest advertising object, together with
//! proofs of the central invariants.

use vstd::prelude::*;

pub mod stat;
pub mod pos;
pub mod advert;
pub mod action;
pub mod object;
pub mod sim;
pub mod world;
pub mod laws;

verus! {

/// How many ticks an in-flight action still has to run.
pub type Duration = u8;

/// The stable index of an interactable object in the world registry.
pub type ObjId = usize;

} // verus!
