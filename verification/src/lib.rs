//! Rendering core of a terminal user-interface toolkit.
//!
//! The library keeps a per-cell character/color grid for a terminal screen,
//! computes the minimal set of updates needed to move from one frame to the
//! next, and computes box-model layout for a tree of styled nodes so that
//! every node receives an absolute position and size.
//!
//! The surrounding program owns the terminal: it queries the terminal size,
//! switches screen modes and writes the update commands produced here to the
//! output stream.  This crate holds the state and the logic, and every
//! function in it is verified against its contract.

pub mod color;
pub mod layout;
pub mod screen;
pub mod session;
