//! The framebuffer the PPU draws into.
use crate::ppu::pixel::Pixel;
use vstd::prelude::*;

verus! {

pub struct Screen {
    pub mem: Vec<Pixel>,
    pub width: usize,
    pub height: usize,
    /// Set when a whole frame has been drawn.
    pub ready: bool,
}

impl Screen {
    pub open spec fn wf(&self) -> bool {
        self.mem@.len() == self.width * self.height
    }

    pub fn with_size(width: usize, height: usize) -> (r: Screen)
        requires
            width * height <= usize::MAX,
        ensures
            r.wf(),
            r.width == width,
            r.height == height,
            !r.ready,
            forall|i: int| 0 <= i < width * height ==> #[trigger] r.mem@[i] == (Pixel { color: 0, x: 0, y: 0 }),
    {
        let n = width * height;
        let mut mem: Vec<Pixel> = Vec::with_capacity(n);
        let mut i: usize = 0;
        while i < n
            invariant
                i <= n,
                mem@.len() == i,
                forall|j: int| 0 <= j < i ==> #[trigger] mem@[j] == (Pixel { color: 0, x: 0, y: 0 }),
            decreases n - i,
        {
            mem.push(Pixel::new(0, 0, 0));
            i = i + 1;
        }
        Screen { mem, width, height, ready: false }
    }

    pub fn width(&self) -> (r: usize)
        ensures
            r == self.width,
    {
        self.width
    }

    pub fn height(&self) -> (r: usize)
        ensures
            r == self.height,
    {
        self.height
    }

    pub fn pixels(&self) -> (r: &Vec<Pixel>)
        ensures
            r@ == self.mem@,
    {
        &self.mem
    }

    /// Stores a pixel at (x, y); a position off the screen is ignored.
    pub fn set_pixel(&mut self, x: usize, y: usize, pixel: Pixel)
        requires
            old(self).wf(),
        ensures
            final(self).wf(),
            final(self).width == old(self).width,
            final(self).height == old(self).height,
            final(self).ready == old(self).ready,
            x < old(self).width && y < old(self).height ==> final(self).mem@ == old(self).mem@.update(
                y * old(self).width + x,
                pixel,
            ),
            !(x < old(self).width && y < old(self).height) ==> final(self).mem@ == old(self).mem@,
    {
        let n = self.mem.len();
        if x < self.width && y < self.height {
            proof {
                assert(y * self.width + x < self.width * self.height) by (nonlinear_arith)
                    requires
                        n == self.width * self.height,
                        x < self.width,
                        y < self.height,
                ;
            }
            let i = y * self.width + x;
            self.mem.set(i, pixel);
        }
    }

    /// The pixel at (x, y); a blank pixel off the screen.
    pub fn get_pixel(&mut self, x: usize, y: usize) -> (r: Pixel)
        requires
            old(self).wf(),
        ensures
            *final(self) == *old(self),
            x < old(self).width && y < old(self).height ==> r == old(self).mem@[y * old(self).width + x],
            !(x < old(self).width && y < old(self).height) ==> r == (Pixel { color: 0, x: 0, y: 0 }),
    {
        let n = self.mem.len();
        if x < self.width && y < self.height {
            proof {
                assert(y * self.width + x < self.width * self.height) by (nonlinear_arith)
                    requires
                        n == self.width * self.height,
                        x < self.width,
                        y < self.height,
                ;
            }
            self.mem[y * self.width + x]
        } else {
            Pixel::new(0, 0, 0)
        }
    }
}

} // verus!
