//! Output geometry for image conversion: which size an image is resized to,
//! which rectangle is cropped out of it, which transforms undo its stored
//! orientation, and how a vector document is re-rendered at a new size.
//!
//! Everything here is a pure computation on plain values. Decoding,
//! resampling and encoding belong to an image engine that the caller drives.

pub mod color_name;
pub mod crop;
pub mod format_gray_raw;
pub mod geometry;
pub mod icon;
pub mod identify;
pub mod image_resource;
pub mod interlace_type;
pub mod markup;
pub mod orientation;
pub mod output;
pub mod resize;
pub mod rewrite;
pub mod text;
pub mod vector;

pub use crate::color_name::ColorName;
pub use crate::crop::{plan_center_crop, Crop, CropError, CropRect};
pub use crate::format_gray_raw::GrayRawConfig;
pub use crate::geometry::{compute_final_size, compute_output_size};
pub use crate::icon::icon_plans;
pub use crate::identify::{ImageIdentify, Resolution};
pub use crate::image_resource::ImageResource;
pub use crate::interlace_type::InterlaceType;
pub use crate::orientation::{normalize_orientation, Orientation, Transform};
pub use crate::output::OutputFormat;
pub use crate::resize::{plan_resize, ResizePlan};
pub use crate::rewrite::rewrite_dimensions;
pub use crate::vector::{
    is_vector_format, needs_markup, plan_vector, rescale_vector, VectorDecision, VectorStep,
};
