use vstd::prelude::*;

verus! {

/// A window's extent in physical pixels.
#[derive(Clone, Copy, Debug, PartialEq, Eq, Structural)]
pub struct PhysicalSize {
    pub width: u32,
    pub height: u32,
}

impl PhysicalSize {
    /// Whether a surface of this extent has any pixel to draw on.
    pub open spec fn drawable(self) -> bool {
        self.width > 0 && self.height > 0
    }

    pub fn new(width: u32, height: u32) -> (size: PhysicalSize)
        ensures
            size.width == width,
            size.height == height,
    {
        PhysicalSize { width, height }
    }

    /// Tells a window that can be drawn on from one that is minimised
    /// or collapsed along either axis.
    pub fn is_drawable(&self) -> (yes: bool)
        ensures
            yes == self.drawable(),
    {
        self.width > 0 && self.height > 0
    }
}

} // verus!
