//! The pictures in an icon.
//!
//! An icon holds one picture for each requested size. Every picture is
//! resized from the input image itself, so that no picture depends on
//! another one. Enlarging is allowed throughout.

use vstd::prelude::*;

use crate::resize::{plan_resize, resize_plan, ResizePlan};

verus! {

/// The resize that makes the picture at place `i` of an icon from an image
/// of the original size.
pub open spec fn icon_plan(
    original_width: u16,
    original_height: u16,
    requests: Seq<(u16, u16)>,
    i: int,
) -> ResizePlan {
    resize_plan(false, original_width, original_height, requests[i].0, requests[i].1)
}

/// The resizes that make the pictures of an icon from an image of the
/// original size, one for each request and in the order of the requests.
pub fn icon_plans(original_width: u16, original_height: u16, requests: &Vec<(u16, u16)>) -> (plans:
    Vec<ResizePlan>)
    requires
        original_width > 0,
        original_height > 0,
    ensures
        plans@.len() == requests@.len(),
        forall|i: int|
            0 <= i < plans@.len() ==> #[trigger] plans@[i] == icon_plan(
                original_width,
                original_height,
                requests@,
                i,
            ),
{
    let mut plans: Vec<ResizePlan> = Vec::new();
    let mut i: usize = 0;
    while i < requests.len()
        invariant
            i <= requests.len(),
            original_width > 0,
            original_height > 0,
            plans@.len() == i,
            forall|j: int|
                0 <= j < i ==> #[trigger] plans@[j] == icon_plan(
                    original_width,
                    original_height,
                    requests@,
                    j,
                ),
        decreases requests.len() - i,
    {
        let next: ResizePlan = plan_resize(
            false,
            original_width,
            original_height,
            requests[i].0,
            requests[i].1,
        );
        plans.push(next);
        i = i + 1;
    }
    plans
}

} // verus!
