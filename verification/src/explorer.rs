//! The viewer's only piece of state between interactions: which image
//! of the scanned directory is currently shown.  Advancing past the
//! last image wraps back to the first.

use vstd::prelude::*;

verus! {

/// A cursor over the scanned image list.
pub struct Explorer {
    pub image_count: usize,
    pub image_index: usize,
}

impl Explorer {
    /// The cursor points at one of the images.
    pub open spec fn wf(self) -> bool {
        1 <= self.image_count && self.image_index < self.image_count
    }

    /// Starts at the first image of a non-empty list.
    pub fn new(image_count: usize) -> (r: Explorer)
        requires
            1 <= image_count,
        ensures
            r.wf(),
            r.image_count == image_count,
            r.image_index == 0,
    {
        Explorer { image_count, image_index: 0 }
    }

    /// The index of the image currently shown.
    pub fn current(&self) -> (r: usize)
        ensures
            r == self.image_index,
    {
        self.image_index
    }

    /// Moves to the next image, wrapping back to the first after the
    /// last, and returns the new index.
    pub fn advance(&mut self) -> (r: usize)
        requires
            old(self).wf(),
        ensures
            final(self).wf(),
            final(self).image_count == old(self).image_count,
            final(self).image_index == if old(self).image_index + 1 < old(self).image_count {
                old(self).image_index + 1
            } else {
                0
            },
            r == final(self).image_index,
    {
        if self.image_index + 1 >= self.image_count {
            self.image_index = 0;
        } else {
            self.image_index = self.image_index + 1;
        }
        self.image_index
    }
}

} // verus!
