//! Simulation core of a top-down arcade survival game on a toroidal plane.
//!
//! The world is a square whose extent shrinks as hostile entities occupy it.
//! Escalating wave timers enqueue spawn requests, a combat resolver consumes
//! collision-pair events from an external physics collaborator, a small state
//! machine tracks title/running/died/won, and a tension mapper turns aggregate
//! hostile health into audio mix directives. All positions, velocities and
//! times are integer units; rendering, physics integration and audio playback
//! are external collaborators.

pub mod combat;
pub mod entity;
pub mod extent;
pub mod rng;
pub mod space;
pub mod spawn;
pub mod state;
pub mod tension;
pub mod timer;
pub mod waves;
pub mod world;
