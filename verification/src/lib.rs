//! Conway's Game of Life on a fixed toroidal grid, with a display-independent
//! pixel surface. The grid engine owns a current and a scratch buffer, applies
//! the standard transition rule with wrap-around neighbor counting, and seeds a
//! fixed arrangement of shapes; the pixel surface is an addressable color
//! buffer that a presentation layer copies to a screen.

pub mod conway;
pub mod framebuffer;
pub mod laws;
