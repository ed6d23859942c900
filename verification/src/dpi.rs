//! Position and size types, in logical (DPI-scaled) and physical pixels.
//!
//! Coordinates are whole pixels: positions are signed (a window or monitor
//! may sit left of or above the origin), sizes are unsigned.

use vstd::prelude::*;

verus! {

/// A position in logical pixels, relative to the parent surface.
#[derive(Debug, Clone, Copy, PartialEq, Eq, Structural)]
pub struct LogicalPosition {
    pub x: i64,
    pub y: i64,
}

/// A size in logical pixels.
#[derive(Debug, Clone, Copy, PartialEq, Eq, Structural)]
pub struct LogicalSize {
    pub width: u32,
    pub height: u32,
}

/// A position in physical (device) pixels.
#[derive(Debug, Clone, Copy, PartialEq, Eq, Structural)]
pub struct PhysicalPosition {
    pub x: i64,
    pub y: i64,
}

/// A size in physical (device) pixels.
#[derive(Debug, Clone, Copy, PartialEq, Eq, Structural)]
pub struct PhysicalSize {
    pub width: u32,
    pub height: u32,
}

impl LogicalPosition {
    pub fn new(x: i64, y: i64) -> (r: Self)
        ensures
            r == (LogicalPosition { x, y }),
    {
        LogicalPosition { x, y }
    }
}

impl LogicalSize {
    pub fn new(width: u32, height: u32) -> (r: Self)
        ensures
            r == (LogicalSize { width, height }),
    {
        LogicalSize { width, height }
    }
}

impl PhysicalPosition {
    pub fn new(x: i64, y: i64) -> (r: Self)
        ensures
            r == (PhysicalPosition { x, y }),
    {
        PhysicalPosition { x, y }
    }
}

impl PhysicalSize {
    pub fn new(width: u32, height: u32) -> (r: Self)
        ensures
            r == (PhysicalSize { width, height }),
    {
        PhysicalSize { width, height }
    }
}

} // verus!
