//! The size an image is resized to.
//!
//! A request names a bounding box; `0` on an axis stands for the original
//! length of that axis. The image is fitted inside the box: the axis that has
//! to shrink most takes its bound, the other one follows from the original
//! aspect ratio, rounded to the nearest pixel.

use vstd::prelude::*;

verus! {

/// The bound that a request puts on one axis: the requested length, or the
/// original one where the request is `0`, or where it is larger than the
/// original and enlarging is not allowed.
pub open spec fn effective_bound(shrink_only: bool, input: u16, max: u16) -> u16 {
    if max == 0 || (shrink_only && max > input) {
        input
    } else {
        max
    }
}

/// The integer nearest to `n / d`, halves rounded up, for `n >= 0` and `d > 0`.
pub open spec fn round_div(n: int, d: int) -> int {
    (2 * n + d) / (2 * d)
}

/// Whether the width bound decides the result: the width has to shrink at
/// least as much as the height (`iw / w >= ih / h`, cross-multiplied).
pub open spec fn width_decides(iw: u16, ih: u16, w: u16, h: u16) -> bool {
    iw * h >= ih * w
}

/// The size that `compute_output_size` returns.
pub open spec fn resolved_size(
    shrink_only: bool,
    input_width: u16,
    input_height: u16,
    max_width: u16,
    max_height: u16,
) -> Option<(u16, u16)> {
    let w = effective_bound(shrink_only, input_width, max_width);
    let h = effective_bound(shrink_only, input_height, max_height);
    if w == input_width && h == input_height {
        None
    } else if width_decides(input_width, input_height, w, h) {
        Some((w, round_div(w * input_height, input_width as int) as u16))
    } else {
        Some((round_div(h * input_width, input_height as int) as u16, h))
    }
}

/// The size of the image after the resize step: the resolved size, or the
/// original size where nothing is to be resized.
pub open spec fn final_size(
    shrink_only: bool,
    input_width: u16,
    input_height: u16,
    max_width: u16,
    max_height: u16,
) -> (u16, u16) {
    match resolved_size(shrink_only, input_width, input_height, max_width, max_height) {
        Some(size) => size,
        None => (input_width, input_height),
    }
}

/// `round_div(n, d)` is at most `k` whenever `n / d` is.
pub proof fn lemma_round_div_upper(n: int, d: int, k: int)
    requires
        0 <= n,
        0 < d,
        n <= k * d,
    ensures
        0 <= round_div(n, d) <= k,
{
    assert(0 <= (2 * n + d) / (2 * d) <= k) by (nonlinear_arith)
        requires
            0 <= n,
            0 < d,
            n <= k * d,
    ;
}

/// `round_div(n, d)` lies within half a unit of `n / d`:
/// `|round_div(n, d) * d - n| <= d / 2`, written without fractions.
pub proof fn lemma_round_div_nearest(n: int, d: int)
    requires
        0 <= n,
        0 < d,
    ensures
        -d < 2 * (round_div(n, d) * d - n) <= d,
{
    let q = (2 * n + d) / (2 * d);
    assert(-d < 2 * (q * d - n) <= d) by (nonlinear_arith)
        requires
            0 <= n,
            0 < d,
            q == (2 * n + d) / (2 * d),
    ;
}

/// `round_div` gives back `k` for the exact quotient `k * d / d`.
pub proof fn lemma_round_div_exact(k: int, d: int)
    requires
        0 <= k,
        0 < d,
    ensures
        round_div(k * d, d) == k,
{
    assert((2 * (k * d) + d) / (2 * d) == k) by (nonlinear_arith)
        requires
            0 <= k,
            0 < d,
    ;
}

/// Whether one axis of `(fw, fh)` is the pixel count nearest to what the
/// aspect ratio `iw : ih` gives for the other axis.
pub open spec fn keeps_aspect(iw: int, ih: int, fw: int, fh: int) -> bool {
    ||| -iw < 2 * (fh * iw - fw * ih) <= iw
    ||| -ih < 2 * (fw * ih - fh * iw) <= ih
}

/// A request of `(0, 0)` leaves the image as it is, whatever the policy.
pub proof fn lemma_zero_request_is_no_resize(shrink_only: bool, input_width: u16, input_height: u16)
    ensures
        resolved_size(shrink_only, input_width, input_height, 0, 0) is None,
{
}

/// Nothing is resized exactly when both effective bounds equal the original
/// lengths.
pub proof fn lemma_no_resize_iff_bounds_are_original(
    shrink_only: bool,
    input_width: u16,
    input_height: u16,
    max_width: u16,
    max_height: u16,
)
    ensures
        resolved_size(shrink_only, input_width, input_height, max_width, max_height) is None <==> (
        effective_bound(shrink_only, input_width, max_width) == input_width && effective_bound(
            shrink_only,
            input_height,
            max_height,
        ) == input_height),
{
}

/// The resolved size fits inside the bounding box, touches it on the axis
/// that decides, and keeps the aspect ratio of the original up to the
/// rounding of the other axis.
pub proof fn lemma_resolved_size_fits(
    shrink_only: bool,
    input_width: u16,
    input_height: u16,
    max_width: u16,
    max_height: u16,
)
    requires
        input_width > 0,
        input_height > 0,
    ensures
        resolved_size(shrink_only, input_width, input_height, max_width, max_height) matches Some(
            (fw, fh),
        ) ==> {
            let bw = effective_bound(shrink_only, input_width, max_width);
            let bh = effective_bound(shrink_only, input_height, max_height);
            &&& fw <= bw
            &&& fh <= bh
            &&& fw == bw || fh == bh
            &&& keeps_aspect(input_width as int, input_height as int, fw as int, fh as int)
        },
{
    let iw = input_width as int;
    let ih = input_height as int;
    let bw = effective_bound(shrink_only, input_width, max_width) as int;
    let bh = effective_bound(shrink_only, input_height, max_height) as int;
    if resolved_size(shrink_only, input_width, input_height, max_width, max_height) is Some {
        if width_decides(input_width, input_height, bw as u16, bh as u16) {
            assert(bw * ih <= bh * iw) by (nonlinear_arith)
                requires
                    iw * bh >= ih * bw,
            ;
            lemma_round_div_upper(bw * ih, iw, bh);
            lemma_round_div_nearest(bw * ih, iw);
        } else {
            assert(bh * iw <= bw * ih) by (nonlinear_arith)
                requires
                    iw * bh < ih * bw,
            ;
            lemma_round_div_upper(bh * iw, ih, bw);
            lemma_round_div_nearest(bh * iw, ih);
        }
    }
}

/// With enlarging ruled out and a request inside the original on both axes,
/// the result stays inside the request and keeps the aspect ratio.
pub proof fn lemma_shrink_fits_request(
    input_width: u16,
    input_height: u16,
    max_width: u16,
    max_height: u16,
)
    requires
        input_width > 0,
        input_height > 0,
        0 < max_width <= input_width,
        0 < max_height <= input_height,
    ensures
        resolved_size(true, input_width, input_height, max_width, max_height) matches Some(
            (fw, fh),
        ) ==> {
            &&& fw <= max_width
            &&& fh <= max_height
            &&& fw == max_width || fh == max_height
            &&& keeps_aspect(input_width as int, input_height as int, fw as int, fh as int)
        },
        resolved_size(true, input_width, input_height, max_width, max_height) is None <==> (
        max_width == input_width && max_height == input_height),
{
    lemma_resolved_size_fits(true, input_width, input_height, max_width, max_height);
}

/// Resolving the same request again, from the size already reached, reaches
/// the same size. Where enlarging is ruled out the second resolve has nothing
/// to resize at all.
pub proof fn lemma_resolve_is_idempotent(
    shrink_only: bool,
    input_width: u16,
    input_height: u16,
    max_width: u16,
    max_height: u16,
)
    requires
        input_width > 0,
        input_height > 0,
        final_size(shrink_only, input_width, input_height, max_width, max_height).0 > 0,
        final_size(shrink_only, input_width, input_height, max_width, max_height).1 > 0,
    ensures
        ({
            let reached = final_size(shrink_only, input_width, input_height, max_width, max_height);
            &&& final_size(shrink_only, reached.0, reached.1, max_width, max_height) == reached
            &&& shrink_only ==> resolved_size(
                shrink_only,
                reached.0,
                reached.1,
                max_width,
                max_height,
            ) is None
        }),
{
    let reached = final_size(shrink_only, input_width, input_height, max_width, max_height);
    let fw = reached.0 as int;
    let fh = reached.1 as int;
    lemma_resolved_size_fits(shrink_only, input_width, input_height, max_width, max_height);
    lemma_round_div_exact(fh, fw);
    lemma_round_div_exact(fw, fh);
    let bw2 = effective_bound(shrink_only, reached.0, max_width) as int;
    let bh2 = effective_bound(shrink_only, reached.1, max_height) as int;
    assert(fh * fw == fw * fh) by (nonlinear_arith);
    if bh2 > fh {
        assert(fw * bh2 >= fh * fw) by (nonlinear_arith)
            requires
                bh2 > fh,
                fw > 0,
        ;
    }
    if bw2 > fw {
        assert(fw * fh < fh * bw2) by (nonlinear_arith)
            requires
                bw2 > fw,
                fh > 0,
        ;
    }
}

fn rounded_quotient(n: u64, d: u64) -> (q: u64)
    requires
        0 < d <= 0xffff,
        n <= 0xffff * 0xffff,
    ensures
        q == round_div(n as int, d as int),
{
    (2 * n + d) / (2 * d)
}

/// Compute the output size. If it returns `None`, the size remains the same.
///
/// Both original lengths must be positive: an image without pixels has no
/// aspect ratio to keep.
pub fn compute_output_size(
    shrink_only: bool,
    input_width: u16,
    input_height: u16,
    max_width: u16,
    max_height: u16,
) -> (size: Option<(u16, u16)>)
    requires
        input_width > 0,
        input_height > 0,
    ensures
        size == resolved_size(shrink_only, input_width, input_height, max_width, max_height),
        max_width == 0 && max_height == 0 ==> size is None,
        size matches Some((w, h)) ==> {
            &&& w <= effective_bound(shrink_only, input_width, max_width)
            &&& h <= effective_bound(shrink_only, input_height, max_height)
            &&& keeps_aspect(input_width as int, input_height as int, w as int, h as int)
        },
{
    proof {
        lemma_resolved_size_fits(shrink_only, input_width, input_height, max_width, max_height);
    }
    let mut width: u16 = max_width;
    let mut height: u16 = max_height;

    if width == 0 || (shrink_only && width > input_width) {
        width = input_width;
    }
    if height == 0 || (shrink_only && height > input_height) {
        height = input_height;
    }

    if width == input_width && height == input_height {
        return None;
    }

    let iw: u64 = input_width as u64;
    let ih: u64 = input_height as u64;
    let w: u64 = width as u64;
    let h: u64 = height as u64;

    assert(iw * h <= 0xffff * 0xffff && ih * w <= 0xffff * 0xffff) by (nonlinear_arith)
        requires
            iw <= 0xffff,
            ih <= 0xffff,
            w <= 0xffff,
            h <= 0xffff,
    ;

    if iw * h >= ih * w {
        proof {
            assert(w * ih <= h * iw) by (nonlinear_arith)
                requires
                    iw * h >= ih * w,
            ;
            lemma_round_div_upper(w * ih, iw as int, h as int);
        }
        let derived: u64 = rounded_quotient(w * ih, iw);
        height = derived as u16;
    } else {
        proof {
            assert(h * iw <= w * ih) by (nonlinear_arith)
                requires
                    iw * h < ih * w,
            ;
            lemma_round_div_upper(h * iw, ih as int, w as int);
        }
        let derived: u64 = rounded_quotient(h * iw, ih);
        width = derived as u16;
    }

    Some((width, height))
}

/// The size of the image after the resize step: what `compute_output_size`
/// resolves, or the original size where it resolves nothing.
pub fn compute_final_size(
    shrink_only: bool,
    input_width: u16,
    input_height: u16,
    max_width: u16,
    max_height: u16,
) -> (size: (u16, u16))
    requires
        input_width > 0,
        input_height > 0,
    ensures
        size == final_size(shrink_only, input_width, input_height, max_width, max_height),
{
    match compute_output_size(shrink_only, input_width, input_height, max_width, max_height) {
        Some(size) => size,
        None => (input_width, input_height),
    }
}

} // verus!
