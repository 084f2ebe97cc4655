//! One output pixel: an index into the 64-entry system palette.
use vstd::prelude::*;

verus! {

#[derive(Clone, Copy, Debug, PartialEq, Eq, Structural)]
pub struct Pixel {
    pub color: u8,
    pub x: usize,
    pub y: usize,
}

impl Pixel {
    pub fn new(color: u8, x: usize, y: usize) -> (r: Pixel)
        ensures
            r == (Pixel { color, x, y }),
    {
        Pixel { color, x, y }
    }
}

} // verus!
