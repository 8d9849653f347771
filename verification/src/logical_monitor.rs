//! The logical side of the topology model: how physical monitors are placed
//! in desktop space.

use crate::physical_monitor::Monitor;
use vstd::prelude::*;

verus! {

/// Orientation of a logical monitor in desktop space.
#[derive(Clone, Copy, PartialEq, Eq, Structural, Debug)]
pub enum Transform {
    Normal,
    Rotate90,
    Rotate180,
    Rotate270,
    Flipped,
    Flipped90,
    Flipped180,
    Flipped270,
}

/// A screen-space placement: position, scale, orientation and primary flag,
/// plus the physical monitors that display it.
pub struct LogicalMonitor {
    pub x: i32,
    pub y: i32,
    /// Rendering scale, in thousandths (1.0 is 1_000).
    pub scale_milli: u32,
    pub transform: Transform,
    pub primary: bool,
    /// The physical monitors displaying this logical monitor.
    pub monitors: Vec<Monitor>,
}

} // verus!
