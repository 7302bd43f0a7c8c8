//! The resize step and the pixel counts around it.
//!
//! How strongly an image is sharpened after a resize follows from how many
//! pixels it had and how many it has now. The counts are worked out here;
//! the strength itself is a matter of floating point and left to the caller.

use vstd::prelude::*;

use crate::geometry::{compute_final_size, final_size};

verus! {

/// The pixel counts that the strength of sharpening is derived from.
#[derive(Debug, Clone, Copy, PartialEq, Eq, Structural)]
pub struct ResizePlan {
    /// The width after the resize.
    pub width: u16,
    /// The height after the resize.
    pub height: u16,
    /// The number of pixels before the resize.
    pub origin_pixels: u32,
    /// The number of pixels after the resize.
    pub resize_pixels: u32,
}

impl ResizePlan {
    /// The larger of the two pixel counts.
    pub open spec fn larger(&self) -> u32 {
        if self.origin_pixels >= self.resize_pixels {
            self.origin_pixels
        } else {
            self.resize_pixels
        }
    }

    /// The smaller of the two pixel counts.
    pub open spec fn smaller(&self) -> u32 {
        if self.origin_pixels >= self.resize_pixels {
            self.resize_pixels
        } else {
            self.origin_pixels
        }
    }

    /// The larger of the two pixel counts.
    pub fn larger_pixels(&self) -> (pixels: u32)
        ensures
            pixels == self.larger(),
    {
        if self.origin_pixels >= self.resize_pixels {
            self.origin_pixels
        } else {
            self.resize_pixels
        }
    }

    /// By how many pixels the two counts differ.
    pub fn changed_pixels(&self) -> (pixels: u32)
        ensures
            pixels == self.larger() - self.smaller(),
    {
        if self.origin_pixels >= self.resize_pixels {
            self.origin_pixels - self.resize_pixels
        } else {
            self.resize_pixels - self.origin_pixels
        }
    }
}

/// What `plan_resize` returns.
pub open spec fn resize_plan(
    shrink_only: bool,
    original_width: u16,
    original_height: u16,
    max_width: u16,
    max_height: u16,
) -> ResizePlan {
    let size = final_size(shrink_only, original_width, original_height, max_width, max_height);
    ResizePlan {
        width: size.0,
        height: size.1,
        origin_pixels: (original_width * original_height) as u32,
        resize_pixels: (size.0 * size.1) as u32,
    }
}

/// The size that the image has after the resize that a request asks for,
/// and the pixel counts before and after it.
pub fn plan_resize(
    shrink_only: bool,
    original_width: u16,
    original_height: u16,
    max_width: u16,
    max_height: u16,
) -> (plan: ResizePlan)
    requires
        original_width > 0,
        original_height > 0,
    ensures
        plan == resize_plan(shrink_only, original_width, original_height, max_width, max_height),
        plan.origin_pixels == original_width * original_height,
        plan.resize_pixels == plan.width * plan.height,
        (plan.width, plan.height) == (original_width, original_height) ==> plan.larger()
            == plan.smaller(),
{
    let (width, height): (u16, u16) = compute_final_size(
        shrink_only,
        original_width,
        original_height,
        max_width,
        max_height,
    );
    assert(original_width * original_height <= 0xffff * 0xffff && width * height <= 0xffff
        * 0xffff) by (nonlinear_arith)
        requires
            original_width <= 0xffff,
            original_height <= 0xffff,
            width <= 0xffff,
            height <= 0xffff,
    ;
    ResizePlan {
        width,
        height,
        origin_pixels: (original_width as u32) * (original_height as u32),
        resize_pixels: (width as u32) * (height as u32),
    }
}

} // verus!
