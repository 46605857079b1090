//! Placement of a sprite over a mouth-shaped quadrilateral: exact geometry of
//! the four control points, the choice between the two ways of fitting the
//! sprite to them, and the warp that renders the choice.
mod algebra;
pub mod bot;
pub mod ciyafier;
pub mod commands;
pub mod detectors;
pub mod diagonals;
pub mod errors;
pub mod imaging;
pub mod laws;
pub mod projector;
pub mod rational;
pub mod resources;
pub mod scalar;
pub mod types;
