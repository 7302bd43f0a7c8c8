//! The output config of a RAW image with gray colors.

use vstd::prelude::*;

use crate::color_name::ColorName;
use crate::crop::Crop;

verus! {

/// The output config of a RAW image with gray colors.
#[derive(Debug)]
pub struct GrayRawConfig {
    /// Remove the metadata stored in the input image.
    pub strip_metadata: bool,
    /// The width of the output image. `0` means the original width.
    pub width: u16,
    /// The height of the output image. `0` means the original height.
    pub height: u16,
    /// Crop the image.
    pub crop: Option<Crop>,
    /// The color is used for fill up the alpha background.
    pub background_color: Option<ColorName>,
}

impl GrayRawConfig {
    /// Create a `GrayRawConfig` instance with default values: metadata
    /// stripped, the original size, no crop and no background colour.
    pub fn new() -> (config: GrayRawConfig)
        ensures
            config.strip_metadata,
            config.width == 0,
            config.height == 0,
            config.crop is None,
            config.background_color is None,
    {
        GrayRawConfig {
            strip_metadata: true,
            width: 0u16,
            height: 0u16,
            crop: None,
            background_color: None,
        }
    }
}

impl Default for GrayRawConfig {
    fn default() -> (config: GrayRawConfig)
        ensures
            config.strip_metadata,
            config.width == 0,
            config.height == 0,
            config.crop is None,
            config.background_color is None,
    {
        GrayRawConfig::new()
    }
}

impl GrayRawConfig {
    /// Whether the metadata of the input is left out of the output.
    pub fn is_strip_metadata(&self) -> (strip: bool)
        ensures
            strip == self.strip_metadata,
    {
        self.strip_metadata
    }

    /// The requested width, `0` for the original one.
    pub fn get_width(&self) -> (width: u16)
        ensures
            width == self.width,
    {
        self.width
    }

    /// The requested height, `0` for the original one.
    pub fn get_height(&self) -> (height: u16)
        ensures
            height == self.height,
    {
        self.height
    }

    /// The requested crop.
    pub fn get_crop(&self) -> (crop: Option<Crop>)
        ensures
            crop == self.crop,
    {
        self.crop
    }

    /// Whether the image may only shrink: a gray raw image is never
    /// enlarged.
    pub fn is_shrink_only(&self) -> (shrink_only: bool)
        ensures
            shrink_only,
    {
        true
    }
}

} // verus!
