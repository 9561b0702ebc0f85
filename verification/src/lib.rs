//! A verified core for Conway's Game of Life on a bounded, bordered grid.
//!
//! The library owns the automaton itself: the cell matrix, the
//! neighbor-counting and generation-transition rule, the pointer-to-cell
//! input mapping, and the time-gated step scheduler. Rendering and the host
//! event loop live outside the library and drive it through the
//! [`engine::Engine`] facade.

pub mod engine;
pub mod grid;
pub mod mapper;
pub mod rule;
pub mod scheduler;
