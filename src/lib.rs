//! Hex-grid coordinates, entity movement and turn dispatch for a small
//! tactical game. Pixel positions are whole numbers; drawing and input
//! polling are left to the host.
pub mod geometry;
pub mod grid;
pub mod entities;
pub mod ui;
pub mod game;
