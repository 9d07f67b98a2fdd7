//! A text-console writer for a memory-mapped character display: a byte
//! stream is laid onto a fixed grid of character cells, with line wrap
//! before the last column and scrolling at the bottom row.
//!
//! `vga` holds the display surface (palette, attributes, cells, grid),
//! `writer` the cursor state machine with its abstract model, and `laws`
//! the properties proved of that model.

pub mod laws;
pub mod vga;
pub mod writer;
