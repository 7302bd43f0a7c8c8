//! What is known of an image once the image engine has read it.

use vstd::prelude::*;

use crate::interlace_type::InterlaceType;

verus! {

/// The resolution of an image.
#[derive(Debug, Clone, PartialEq, Eq)]
pub struct Resolution {
    pub width: u32,
    pub height: u32,
}

/// The identified data of an image.
#[derive(Debug, Clone)]
pub struct ImageIdentify {
    pub resolution: Resolution,
    pub format: String,
    pub interlace: InterlaceType,
    pub has_alpha_channel: bool,
}

impl Resolution {
    /// Whether the image has pixels at all.
    pub open spec fn is_positive(&self) -> bool {
        self.width > 0 && self.height > 0
    }

    /// The lengths of both axes as the 16-bit numbers that sizes are
    /// resolved in. There are none for an image without pixels or with an
    /// axis longer than 65535 pixels.
    pub fn dimensions(&self) -> (lengths: Option<(u16, u16)>)
        ensures
            lengths is Some <==> self.is_positive() && self.width <= 0xffff && self.height
                <= 0xffff,
            lengths matches Some((w, h)) ==> w == self.width && h == self.height,
    {
        if self.width == 0 || self.height == 0 || self.width > 0xffff || self.height > 0xffff {
            None
        } else {
            Some((self.width as u16, self.height as u16))
        }
    }
}

impl ImageIdentify {
    /// Put together what the image engine reports of an image. The scheme
    /// comes as the engine's number for it; a number that names no scheme is
    /// taken as the undefined scheme.
    pub fn from_report(
        width: u32,
        height: u32,
        format: String,
        interlace: isize,
        has_alpha_channel: bool,
    ) -> (identify: ImageIdentify)
        ensures
            identify.resolution.width == width,
            identify.resolution.height == height,
            identify.format == format,
            identify.interlace.number() == (if 0 <= interlace < 8 {
                interlace as int
            } else {
                0
            }),
            identify.has_alpha_channel == has_alpha_channel,
    {
        let scheme: InterlaceType = match InterlaceType::from_ordinal(interlace) {
            Some(scheme) => scheme,
            None => InterlaceType::UndefinedInterlace,
        };
        ImageIdentify {
            resolution: Resolution { width, height },
            format,
            interlace: scheme,
            has_alpha_channel,
        }
    }
}

} // verus!
