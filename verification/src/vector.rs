//! Resizing a vector document.
//!
//! A drawing that is to come out larger than it is declared is not scaled up
//! from its pixels. The size that its root tag declares is rewritten and the
//! document is rendered again. A drawing that is to come out smaller is
//! rendered as it is and scaled down like any other image.

use vstd::prelude::*;
use vstd::utf8::valid_utf8;

use crate::geometry::{compute_output_size, resolved_size};
use crate::rewrite::{
    lemma_rewritten_differs, lemma_rewritten_keeps_utf8, rewrite_dimensions, rewritten,
};
use crate::text::same_text;

verus! {

/// What to do with a vector document that is to be resized.
#[derive(Debug, Clone, PartialEq, Eq)]
pub enum VectorDecision {
    /// Render the document as it is and resize the pixels.
    UseRasterPath,
    /// Render this document, whose declared size was rewritten, in place of
    /// the original one.
    Reload(Vec<u8>),
    /// Use the document as it was rendered.
    Unchanged,
}

/// What a `VectorDecision` is in contracts.
pub enum VectorOutcome {
    UseRasterPath,
    Reload(Seq<u8>),
    Unchanged,
}

impl View for VectorDecision {
    type V = VectorOutcome;

    open spec fn view(&self) -> VectorOutcome {
        match self {
            VectorDecision::UseRasterPath => VectorOutcome::UseRasterPath,
            VectorDecision::Reload(text) => VectorOutcome::Reload(text@),
            VectorDecision::Unchanged => VectorOutcome::Unchanged,
        }
    }
}

/// What to do first with an image that has just been read.
#[derive(Debug, Clone, Copy, PartialEq, Eq, Structural)]
pub enum VectorStep {
    /// Resize the pixels: the image is no vector document, or it is one
    /// whose width is to shrink.
    Raster,
    /// Leave the rendering as it is: the size does not change.
    Keep,
    /// Read the markup of the document and let `rescale_vector` decide how
    /// it is brought to this size.
    ReadMarkup { width: u16, height: u16 },
}

/// Whether `format` is the name of a vector format: `SVG` or `MVG`.
pub open spec fn vector_format(format: Seq<char>) -> bool {
    format == "SVG"@ || format == "MVG"@
}

/// What `plan_vector` decides.
pub open spec fn vector_step(
    format: Seq<char>,
    original_width: u16,
    original_height: u16,
    shrink_only: bool,
    max_width: u16,
    max_height: u16,
) -> VectorStep {
    if !vector_format(format) {
        VectorStep::Raster
    } else {
        match resolved_size(shrink_only, original_width, original_height, max_width, max_height) {
            None => VectorStep::Keep,
            Some((width, height)) => if width < original_width {
                VectorStep::Raster
            } else {
                VectorStep::ReadMarkup { width, height }
            },
        }
    }
}

/// Whether `format` is the name of a vector format.
pub fn is_vector_format(format: &str) -> (vector: bool)
    ensures
        vector == vector_format(format@),
{
    same_text(format, "SVG") || same_text(format, "MVG")
}

/// Decide what to do first with an image of the given format and size that
/// is to be resized as the request says.
pub fn plan_vector(
    format: &str,
    original_width: u16,
    original_height: u16,
    shrink_only: bool,
    max_width: u16,
    max_height: u16,
) -> (step: VectorStep)
    requires
        original_width > 0,
        original_height > 0,
    ensures
        step == vector_step(
            format@,
            original_width,
            original_height,
            shrink_only,
            max_width,
            max_height,
        ),
        step matches VectorStep::ReadMarkup { width, height } ==> width >= original_width,
{
    if !is_vector_format(format) {
        VectorStep::Raster
    } else {
        match compute_output_size(
            shrink_only,
            original_width,
            original_height,
            max_width,
            max_height,
        ) {
            None => VectorStep::Keep,
            Some((width, height)) => {
                if width < original_width {
                    VectorStep::Raster
                } else {
                    VectorStep::ReadMarkup { width, height }
                }
            },
        }
    }
}

/// Whether the markup of a drawing is needed to bring it from its original
/// size to the target size: the size changes and the width does not shrink.
pub open spec fn wants_markup(
    original_width: u16,
    original_height: u16,
    target_width: u16,
    target_height: u16,
) -> bool {
    (target_width != original_width || target_height != original_height) && target_width
        >= original_width
}

/// What `rescale_vector` decides.
pub open spec fn vector_outcome(
    text: Seq<u8>,
    original_width: u16,
    original_height: u16,
    target_width: u16,
    target_height: u16,
) -> VectorOutcome {
    if target_width == original_width && target_height == original_height {
        VectorOutcome::Unchanged
    } else if !wants_markup(original_width, original_height, target_width, target_height)
        || !valid_utf8(text) {
        VectorOutcome::UseRasterPath
    } else if rewritten(text, target_width, target_height).1 {
        VectorOutcome::Reload(rewritten(text, target_width, target_height).0)
    } else {
        VectorOutcome::Unchanged
    }
}

/// `core::str::from_utf8`, asked only whether it succeeds: it does exactly
/// on well-formed UTF-8.
#[verifier::external_body]
fn is_utf8(bytes: &[u8]) -> (ok: bool)
    ensures
        ok == valid_utf8(bytes@),
{
    core::str::from_utf8(bytes).is_ok()
}

/// Whether the markup of a drawing has to be read to bring it from its
/// original size to the target size. Where it has not, `rescale_vector`
/// decides without looking at the text.
pub fn needs_markup(
    original_width: u16,
    original_height: u16,
    target_width: u16,
    target_height: u16,
) -> (needed: bool)
    ensures
        needed == wants_markup(original_width, original_height, target_width, target_height),
{
    (target_width != original_width || target_height != original_height) && target_width
        >= original_width
}

/// Decide how a vector document of the original size is brought to the
/// target size.
///
/// A target equal to the original size leaves the rendering unchanged. A
/// target with a smaller width, or a text that is not UTF-8, goes the raster
/// path. Otherwise the declared size is rewritten: the new text is to be
/// loaded where that changed anything, and the rendering is left unchanged
/// where it did not.
pub fn rescale_vector(
    text: &[u8],
    original_width: u16,
    original_height: u16,
    target_width: u16,
    target_height: u16,
) -> (decision: VectorDecision)
    ensures
        decision@ == vector_outcome(
            text@,
            original_width,
            original_height,
            target_width,
            target_height,
        ),
        decision matches VectorDecision::Reload(new_text) ==> valid_utf8(new_text@) && new_text@
            != text@,
{
    proof {
        if valid_utf8(text@) {
            lemma_rewritten_keeps_utf8(text@, target_width, target_height);
        }
        lemma_rewritten_differs(text@, target_width, target_height);
    }
    if target_width == original_width && target_height == original_height {
        VectorDecision::Unchanged
    } else if !needs_markup(original_width, original_height, target_width, target_height)
        || !is_utf8(text) {
        VectorDecision::UseRasterPath
    } else {
        match rewrite_dimensions(text, target_width, target_height) {
            Some(new_text) => VectorDecision::Reload(new_text),
            None => VectorDecision::Unchanged,
        }
    }
}

} // verus!
