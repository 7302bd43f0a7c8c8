//! The rectangle that a crop request cuts out of an image.
//!
//! A centre crop names an aspect ratio as a pair of whole numbers. The
//! rectangle keeps the full length of one axis, shortens the other one to
//! reach the ratio, and leaves equal margins on both sides of it.

use vstd::prelude::*;

use crate::geometry::{
    keeps_aspect, lemma_round_div_exact, lemma_round_div_nearest, lemma_round_div_upper, round_div,
};

verus! {

/// A crop request.
#[derive(Debug, Clone, Copy, PartialEq, Eq, Structural)]
pub enum Crop {
    /// Keep the centre of the image at the aspect ratio `width : height`.
    Center(u32, u32),
}

/// Why a crop request cannot be planned.
#[derive(Debug, Clone, Copy, PartialEq, Eq, Structural)]
pub enum CropError {
    /// One part of the ratio is zero, so the ratio is zero or has no value.
    InvalidRatio,
}

/// A rectangle inside an image, in pixels, from its top left corner.
#[derive(Debug, Clone, Copy, PartialEq, Eq, Structural)]
pub struct CropRect {
    pub width: u32,
    pub height: u32,
    pub x: u32,
    pub y: u32,
}

/// Whether `ratio_width : ratio_height` is a ratio that a crop can aim at.
pub open spec fn valid_ratio(ratio_width: u32, ratio_height: u32) -> bool {
    ratio_width > 0 && ratio_height > 0
}

/// Whether the target ratio is at least as wide as the image
/// (`rw / rh >= ow / oh`, cross-multiplied), so that the crop keeps the full
/// width.
pub open spec fn keeps_width(
    original_width: u32,
    original_height: u32,
    ratio_width: u32,
    ratio_height: u32,
) -> bool {
    ratio_width * original_height >= original_width * ratio_height
}

/// The rectangle that `plan_center_crop` returns for a valid ratio.
pub open spec fn center_crop_rect(
    original_width: u32,
    original_height: u32,
    ratio_width: u32,
    ratio_height: u32,
) -> CropRect {
    if keeps_width(original_width, original_height, ratio_width, ratio_height) {
        let height = round_div(original_width * ratio_height, ratio_width as int);
        CropRect {
            width: original_width,
            height: height as u32,
            x: 0,
            y: ((original_height - height) / 2) as u32,
        }
    } else {
        let width = round_div(original_height * ratio_width, ratio_height as int);
        CropRect {
            width: width as u32,
            height: original_height,
            x: ((original_width - width) / 2) as u32,
            y: 0,
        }
    }
}

impl CropRect {
    /// Whether the rectangle lies inside an image of the given size.
    pub open spec fn inside(&self, original_width: u32, original_height: u32) -> bool {
        &&& self.x + self.width <= original_width
        &&& self.y + self.height <= original_height
    }

    /// Whether the margins on opposite sides differ by at most the one pixel
    /// that an odd difference leaves over.
    pub open spec fn centered(&self, original_width: u32, original_height: u32) -> bool {
        &&& 0 <= original_width - self.width - 2 * self.x <= 1
        &&& 0 <= original_height - self.height - 2 * self.y <= 1
    }
}

/// The centre crop lies inside the image, is centred in it, keeps one axis
/// whole, and has the target ratio up to the rounding of the other axis.
pub proof fn lemma_center_crop_inside(
    original_width: u32,
    original_height: u32,
    ratio_width: u32,
    ratio_height: u32,
)
    requires
        valid_ratio(ratio_width, ratio_height),
    ensures
        ({
            let rect = center_crop_rect(original_width, original_height, ratio_width, ratio_height);
            &&& rect.inside(original_width, original_height)
            &&& rect.centered(original_width, original_height)
            &&& rect.width == original_width || rect.height == original_height
            &&& keeps_aspect(
                ratio_width as int,
                ratio_height as int,
                rect.width as int,
                rect.height as int,
            )
        }),
{
    let ow = original_width as int;
    let oh = original_height as int;
    let rw = ratio_width as int;
    let rh = ratio_height as int;
    if keeps_width(original_width, original_height, ratio_width, ratio_height) {
        assert(0 <= ow * rh <= oh * rw) by (nonlinear_arith)
            requires
                rw * oh >= ow * rh,
                0 <= ow,
                0 <= rh,
        ;
        lemma_round_div_upper(ow * rh, rw, oh);
        lemma_round_div_nearest(ow * rh, rw);
    } else {
        assert(0 <= oh * rw <= ow * rh) by (nonlinear_arith)
            requires
                rw * oh < ow * rh,
                0 <= oh,
                0 <= rw,
        ;
        lemma_round_div_upper(oh * rw, rh, ow);
        lemma_round_div_nearest(oh * rw, rh);
    }
}

/// A target ratio equal to the ratio of the image crops nothing: the
/// rectangle is the whole image, at offset zero.
pub proof fn lemma_same_ratio_crops_nothing(
    original_width: u32,
    original_height: u32,
    ratio_width: u32,
    ratio_height: u32,
)
    requires
        valid_ratio(ratio_width, ratio_height),
        ratio_width * original_height == original_width * ratio_height,
    ensures
        center_crop_rect(original_width, original_height, ratio_width, ratio_height) == (CropRect {
            width: original_width,
            height: original_height,
            x: 0,
            y: 0,
        }),
{
    let ow = original_width as int;
    let oh = original_height as int;
    let rw = ratio_width as int;
    let rh = ratio_height as int;
    assert(ow * rh == oh * rw) by (nonlinear_arith)
        requires
            rw * oh == ow * rh,
    ;
    lemma_round_div_exact(oh, rw);
}

/// The image's own size, taken as the ratio, crops nothing.
pub proof fn lemma_own_size_crops_nothing(original_width: u32, original_height: u32)
    requires
        original_width > 0,
        original_height > 0,
    ensures
        center_crop_rect(original_width, original_height, original_width, original_height) == (
        CropRect { width: original_width, height: original_height, x: 0, y: 0 }),
{
    lemma_same_ratio_crops_nothing(original_width, original_height, original_width, original_height);
}

fn rounded_ratio(n: u64, d: u32) -> (q: u64)
    requires
        d > 0,
        n <= 0xffff_ffff * 0xffff_ffff,
    ensures
        q == round_div(n as int, d as int),
{
    let wide: u128 = 2 * (n as u128) + (d as u128);
    let q: u128 = wide / (2 * (d as u128));
    proof {
        assert(n <= n * d) by (nonlinear_arith)
            requires
                0 <= n,
                1 <= d,
        ;
        lemma_round_div_upper(n as int, d as int, n as int);
    }
    q as u64
}

/// Plan the centre crop of an image to the aspect ratio
/// `ratio_width : ratio_height`.
///
/// A ratio with a zero part is refused. Any other ratio gives the rectangle
/// of that ratio that keeps one axis whole and is centred on the other.
pub fn plan_center_crop(
    original_width: u32,
    original_height: u32,
    ratio_width: u32,
    ratio_height: u32,
) -> (plan: Result<CropRect, CropError>)
    ensures
        plan is Ok <==> valid_ratio(ratio_width, ratio_height),
        plan matches Ok(rect) ==> {
            &&& rect == center_crop_rect(original_width, original_height, ratio_width, ratio_height)
            &&& rect.inside(original_width, original_height)
            &&& rect.centered(original_width, original_height)
            &&& keeps_aspect(
                ratio_width as int,
                ratio_height as int,
                rect.width as int,
                rect.height as int,
            )
        },
        plan matches Err(e) ==> e == CropError::InvalidRatio,
{
    if ratio_width == 0 || ratio_height == 0 {
        return Err(CropError::InvalidRatio);
    }
    proof {
        lemma_center_crop_inside(original_width, original_height, ratio_width, ratio_height);
    }
    let ow: u64 = original_width as u64;
    let oh: u64 = original_height as u64;
    let rw: u64 = ratio_width as u64;
    let rh: u64 = ratio_height as u64;
    assert(rw * oh <= 0xffff_ffff * 0xffff_ffff && ow * rh <= 0xffff_ffff * 0xffff_ffff)
        by (nonlinear_arith)
        requires
            ow <= 0xffff_ffff,
            oh <= 0xffff_ffff,
            rw <= 0xffff_ffff,
            rh <= 0xffff_ffff,
    ;
    if rw * oh >= ow * rh {
        proof {
            assert(ow * rh <= oh * rw) by (nonlinear_arith)
                requires
                    rw * oh >= ow * rh,
            ;
            lemma_round_div_upper(ow * rh, rw as int, oh as int);
        }
        let height: u64 = rounded_ratio(ow * rh, ratio_width);
        let y: u64 = (oh - height) / 2;
        Ok(CropRect { width: original_width, height: height as u32, x: 0, y: y as u32 })
    } else {
        proof {
            assert(oh * rw <= ow * rh) by (nonlinear_arith)
                requires
                    rw * oh < ow * rh,
            ;
            lemma_round_div_upper(oh * rw, rh as int, ow as int);
        }
        let width: u64 = rounded_ratio(oh * rw, ratio_height);
        let x: u64 = (ow - width) / 2;
        Ok(CropRect { width: width as u32, height: original_height, x: x as u32, y: 0 })
    }
}

impl Crop {
    /// The rectangle that this request cuts out of an image of the given
    /// size.
    pub fn plan(&self, original_width: u32, original_height: u32) -> (plan: Result<
        CropRect,
        CropError,
    >)
        ensures
            plan == self.planned(original_width, original_height),
    {
        match self {
            Crop::Center(ratio_width, ratio_height) => plan_center_crop(
                original_width,
                original_height,
                *ratio_width,
                *ratio_height,
            ),
        }
    }

    /// What `plan` returns.
    pub open spec fn planned(&self, original_width: u32, original_height: u32) -> Result<
        CropRect,
        CropError,
    > {
        match self {
            Crop::Center(ratio_width, ratio_height) => if valid_ratio(*ratio_width, *ratio_height) {
                Ok(center_crop_rect(original_width, original_height, *ratio_width, *ratio_height))
            } else {
                Err(CropError::InvalidRatio)
            },
        }
    }
}

impl CropError {
    /// The message that goes with this error.
    pub fn message(&self) -> (text: &'static str)
        ensures
            text@ == "The ratio of CenterCrop is incorrect."@,
    {
        "The ratio of CenterCrop is incorrect."
    }
}

} // verus!
