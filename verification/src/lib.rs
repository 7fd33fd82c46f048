//! A GPU-resident Conway's Game of Life demo, modelled and verified on the
//! host side.
//!
//! The library holds everything the demo decides or computes: the board
//! encoding and its seed pattern, the automaton update rule, the ping-pong
//! double buffer's role bookkeeping, the shader program's uniform cache, and
//! the per-frame step/throttle state machine. The surrounding host performs
//! the graphics calls that the state machine asks for.

pub mod board;
pub mod errors;
pub mod program;
pub mod rules;
pub mod sim;
pub mod texture;
