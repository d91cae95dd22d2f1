//! Snake on a fixed grid: the simulation, the food placement and the
//! composition of each frame, with every rule stated as a contract.
//!
//! The library owns no terminal. A frame is handed out as a list of
//! [`render::DrawOp`] values and key presses come in as plain booleans, so a
//! front end only has to paint cells and poll keys.

pub mod direction;
pub mod food;
pub mod game;
pub mod geometry;
pub mod render;
pub mod snek;
pub mod text;
