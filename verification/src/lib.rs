//! Core of a paddle-and-ball arcade game: axis-aligned rectangle geometry,
//! collision resolution, entity models (paddle, block, ball), the per-frame
//! simulation step and the game state machine.
//!
//! All geometry is integer fixed-point: positions and sizes are measured in
//! micropixels (one pixel is 1_000_000 units), velocity directions in
//! thousandths of a unit (a unit vector has squared length 1_000_000), and
//! frame times in milliseconds. The rendering and input layer converts at the
//! boundary.

pub mod geom;
pub mod collide;
pub mod entities;
pub mod rng;
pub mod counts;
pub mod session;
