use vstd::prelude::*;

verus! {

/// Position and size of a host window or child viewport, in logical pixels.
///
/// Positions are signed (a window may sit partly off screen); sizes are
/// unsigned. The wide position type keeps the stepped placement of
/// successive windows free of overflow for every window id.
#[derive(Clone, Copy, PartialEq, Eq, Structural, Debug)]
pub struct Rect {
    pub x: i64,
    pub y: i64,
    pub width: u32,
    pub height: u32,
}

} // verus!
