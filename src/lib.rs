//! A hex-grid board: a dense store that keeps one optional occupant per
//! cell of a rectangular grid, keyed by integer cell coordinates, together
//! with the plain game components that live on that grid.

pub mod grid;
pub mod components;
pub mod terrain;
