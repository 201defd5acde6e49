//! Discrete-time simulation of an electrical distribution grid under cyber attack.
//!
//! The grid is a tree of agents: one root, geographic areas below it, local
//! netstations below each area and households at the leaves. Every tick the
//! households produce their power figures, an attack engine infects, patches
//! and distorts them, the figures are summed upwards through the tree, a bounded
//! reserve absorbs part of the mismatch, and frequency and voltage are watched
//! against their allowed bands.
//!
//! - [`util`] holds the units (ticks, watts, millihertz, millivolts, minutes)
//!   and the errors, and takes apart the lists of tuples in which the bands
//!   and the attack windows of a run are written.
//! - [`grid`] holds the electrical side: power states, power generation units,
//!   infection states, frequency and voltage, the boundary monitors and the
//!   reserve.
//! - [`attack`] holds the schedule of the attacker and the epidemic among the
//!   households.
//! - [`agent`] holds the four kinds of agent and the way a parent sums up its
//!   children.
//! - [`model`] builds the tree and the graph that records it, and takes a run
//!   through its ticks, phase by phase.
//!
//! The library works on integers throughout. What a run needs from random
//! numbers or from floating point arithmetic is handed to it as plain values:
//! the layout of the grid with the daily curves of every household, the rolls
//! of the epidemic, the falsified figures of attacked households and the
//! voltages of the netstations.

pub mod agent;
pub mod attack;
pub mod grid;
pub mod model;
pub mod util;
