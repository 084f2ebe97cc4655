//! PPUSCROLL as a pair of bytes behind one write toggle.
use crate::types::Byte;
use vstd::prelude::*;

verus! {

/// The half the next write lands in.
#[derive(Clone, Copy, Debug, PartialEq, Eq, Structural)]
pub enum Axis {
    X,
    Y,
}

#[derive(Clone, Copy, Debug, PartialEq, Eq, Structural)]
pub struct PpuScroll {
    pub x: Byte,
    pub y: Byte,
    pub axis: Axis,
}

impl PpuScroll {
    pub fn new() -> (r: PpuScroll)
        ensures
            r == (PpuScroll { x: Byte(0), y: Byte(0), axis: Axis::X }),
    {
        PpuScroll { x: Byte(0x00), y: Byte(0x00), axis: Axis::X }
    }

    pub fn set_cur_axis(&mut self, axis: Axis)
        ensures
            *final(self) == (PpuScroll { axis, ..*old(self) }),
    {
        self.axis = axis;
    }

    pub fn set_cur_axis_x(&mut self)
        ensures
            *final(self) == (PpuScroll { axis: Axis::X, ..*old(self) }),
    {
        self.set_cur_axis(Axis::X);
    }

    pub fn set_cur_axis_y(&mut self)
        ensures
            *final(self) == (PpuScroll { axis: Axis::Y, ..*old(self) }),
    {
        self.set_cur_axis(Axis::Y);
    }

    pub fn x(&self) -> (r: Byte)
        ensures
            r == self.x,
    {
        self.x
    }

    pub fn y(&self) -> (r: Byte)
        ensures
            r == self.y,
    {
        self.y
    }

    /// The first write sets X, the second Y; the toggle flips each time.
    pub fn write(&mut self, v: Byte)
        ensures
            old(self).axis == Axis::X ==> *final(self) == (PpuScroll { x: v, axis: Axis::Y, ..*old(self) }),
            old(self).axis == Axis::Y ==> *final(self) == (PpuScroll { y: v, axis: Axis::X, ..*old(self) }),
    {
        match self.axis {
            Axis::X => {
                self.x = v;
                self.axis = Axis::Y;
            },
            Axis::Y => {
                self.y = v;
                self.axis = Axis::X;
            },
        }
    }
}

} // verus!
