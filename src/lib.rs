//! A dodging arcade game's rules: the player's square chases a score target
//! while bugs, one more for each point scored, bounce around the screen.
//!
//! All positions are fixed-point integers, `PIXEL` units to a pixel. The
//! `world` module holds the session state and its tick, `controller` the
//! manual and autonomous sources of movement, and `geometry` the overlap test
//! and spawn placement.
use vstd::prelude::*;

mod chance;
pub mod controller;
pub mod geometry;
pub mod world;

verus! {

} // verus!
