//! Window-arrangement core of a tiling window manager.
//!
//! Given a rectangular screen region, an ordered collection of managed
//! windows, and a designated master window, a layout strategy computes the
//! exact position and size for every window and applies it through a
//! window-system connection.

use vstd::prelude::*;

pub mod layout;
pub mod stack;
pub mod x;

verus! {

/// The rectangular screen region a layout strategy arranges windows within.
/// Read-only input to every layout call, supplied fresh per invocation.
#[derive(Clone, Copy, Debug, PartialEq, Eq, Structural)]
pub struct Viewport {
    pub x: u32,
    pub y: u32,
    pub width: u32,
    pub height: u32,
}

} // verus!
