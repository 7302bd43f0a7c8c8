use image_convert::crop::{plan_center_crop, Crop, CropError, CropRect};

#[test]
fn the_own_ratio_crops_nothing() {
    for (ow, oh) in [(4592u32, 2584u32), (1, 1), (512, 512), (3, 1000), (4294967295, 4294967295)] {
        assert_eq!(
            Ok(CropRect { width: ow, height: oh, x: 0, y: 0 }),
            plan_center_crop(ow, oh, ow, oh)
        );
    }
}

#[test]
fn an_equal_ratio_in_other_terms_crops_nothing() {
    assert_eq!(
        Ok(CropRect { width: 1920, height: 1080, x: 0, y: 0 }),
        plan_center_crop(1920, 1080, 16, 9)
    );
    assert_eq!(
        Ok(CropRect { width: 800, height: 600, x: 0, y: 0 }),
        plan_center_crop(800, 600, 4000, 3000)
    );
}

#[test]
fn a_ratio_with_a_zero_part_is_refused() {
    assert_eq!(Err(CropError::InvalidRatio), plan_center_crop(4592, 2584, 1, 0));
    assert_eq!(Err(CropError::InvalidRatio), plan_center_crop(4592, 2584, 0, 1));
    assert_eq!(Err(CropError::InvalidRatio), plan_center_crop(4592, 2584, 0, 0));
    assert_eq!(Err(CropError::InvalidRatio), plan_center_crop(0, 0, 0, 5));
}

#[test]
fn a_narrower_ratio_keeps_the_height() {
    // 2584 * 1 / 1 = 2584, margins (4592 - 2584) / 2 = 1004
    assert_eq!(
        Ok(CropRect { width: 2584, height: 2584, x: 1004, y: 0 }),
        plan_center_crop(4592, 2584, 1, 1)
    );
    // 2584 * 4 / 3 = 3445.33, margins (4592 - 3445) / 2 = 573.5
    assert_eq!(
        Ok(CropRect { width: 3445, height: 2584, x: 573, y: 0 }),
        plan_center_crop(4592, 2584, 4, 3)
    );
}

#[test]
fn a_wider_ratio_keeps_the_width() {
    // 1000 * 9 / 16 = 562.5, rounded up; margins (1000 - 563) / 2 = 218.5
    assert_eq!(
        Ok(CropRect { width: 1000, height: 563, x: 0, y: 218 }),
        plan_center_crop(1000, 1000, 16, 9)
    );
    // 4592 * 1 / 2 = 2296, margins (2584 - 2296) / 2 = 144
    assert_eq!(
        Ok(CropRect { width: 4592, height: 2296, x: 0, y: 144 }),
        plan_center_crop(4592, 2584, 2, 1)
    );
}

#[test]
fn an_extreme_ratio_leaves_a_rectangle_without_pixels() {
    assert_eq!(
        Ok(CropRect { width: 1, height: 0, x: 0, y: 0 }),
        plan_center_crop(1, 1, 1000, 1)
    );
    assert_eq!(
        Ok(CropRect { width: 0, height: 10, x: 5, y: 0 }),
        plan_center_crop(10, 10, 1, 1000)
    );
}

#[test]
fn an_image_without_pixels_is_cropped_to_itself() {
    assert_eq!(Ok(CropRect { width: 0, height: 0, x: 0, y: 0 }), plan_center_crop(0, 0, 16, 9));
    assert_eq!(Ok(CropRect { width: 0, height: 0, x: 5, y: 0 }), plan_center_crop(10, 0, 16, 9));
}

#[test]
fn the_largest_lengths_are_cropped_without_overflow() {
    assert_eq!(
        Ok(CropRect { width: 4294967295, height: 1, x: 0, y: 2147483647 }),
        plan_center_crop(4294967295, 4294967295, 4294967295, 1)
    );
    assert_eq!(
        Ok(CropRect { width: 1, height: 4294967295, x: 2147483647, y: 0 }),
        plan_center_crop(4294967295, 4294967295, 1, 4294967295)
    );
}

#[test]
fn the_crop_lies_inside_the_image_and_in_its_centre() {
    for (ow, oh) in [(4592u32, 2584u32), (800, 600), (512, 512), (3, 1000), (1001, 7)] {
        for (rw, rh) in [(1u32, 1u32), (16, 9), (9, 16), (4, 3), (21, 9), (1, 100), (100, 1)] {
            let rect = plan_center_crop(ow, oh, rw, rh).unwrap();
            assert!(rect.x + rect.width <= ow);
            assert!(rect.y + rect.height <= oh);
            assert!(rect.width == ow || rect.height == oh);
            assert!(ow - rect.width - 2 * rect.x <= 1);
            assert!(oh - rect.height - 2 * rect.y <= 1);
        }
    }
}

#[test]
fn a_crop_request_plans_its_rectangle() {
    assert_eq!(
        Ok(CropRect { width: 2584, height: 2584, x: 1004, y: 0 }),
        Crop::Center(1, 1).plan(4592, 2584)
    );
    assert_eq!(Err(CropError::InvalidRatio), Crop::Center(1, 0).plan(4592, 2584));
}

#[test]
fn the_crop_error_has_its_message() {
    assert_eq!("The ratio of CenterCrop is incorrect.", CropError::InvalidRatio.message());
}
