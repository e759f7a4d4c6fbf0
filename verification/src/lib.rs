//! Coordinate-space transform pipeline for an immediate-mode UI layer.
//!
//! The library maps UI draw-clip rectangles and cursor positions between
//! three coordinate spaces: the UI library's logical space, a host window's
//! pixel space, and — when the UI surface is texture-mapped onto a panel in
//! a 3-D scene — on-screen pixels obtained through the scene camera's
//! modelview/projection/viewport transforms.
//!
//! All arithmetic is exact: scalar values that hosts report as
//! single-precision floats are carried as exact fractions, so every
//! conversion has a precise contract and overflow is an explicit, checked
//! outcome rather than silent wrap-around.

pub mod events;
pub mod geometry;
pub mod keymap;
pub mod linalg;
pub mod rational;
pub mod transform;
pub mod ui;
