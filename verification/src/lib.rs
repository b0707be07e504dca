//! Frame-based simulation core of a paddle-and-ball arcade game.
//!
//! The engine works on a fixed-point grid: every length is an integer
//! number of sub-pixel units, `fixed::FP` units to the pixel.  The host
//! shell owns the canvas, the event sources and the clock; it feeds key
//! and tilt events in through [`world::World::input_dispatch`] and
//! [`world::World::feed_tilt`], and drives one simulation step per
//! animation frame through [`world::World::update`].

pub mod fixed;
pub mod trig;
pub mod input;
pub mod state;
pub mod physics;
pub mod world;
