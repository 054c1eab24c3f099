//! Text-mode console driver: a colour model, a cell model, a display
//! surface backed by volatile device memory, and a cursor-tracking
//! writer that wraps and scrolls.

pub mod cell;
pub mod colour;
pub mod laws;
pub mod surface;
pub mod writer;
