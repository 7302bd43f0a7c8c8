use image_convert::orientation::{normalize_orientation, Orientation, Transform};

#[test]
fn right_top_is_undone_by_one_quarter_turn() {
    assert_eq!(vec![Transform::Rotate90], normalize_orientation(Orientation::RightTop));
}

#[test]
fn an_upright_image_is_left_alone() {
    assert_eq!(Vec::<Transform>::new(), normalize_orientation(Orientation::Undefined));
    assert_eq!(Vec::<Transform>::new(), normalize_orientation(Orientation::TopLeft));
}

#[test]
fn every_orientation_has_its_steps() {
    assert_eq!(vec![Transform::Flop], normalize_orientation(Orientation::TopRight));
    assert_eq!(vec![Transform::Rotate180], normalize_orientation(Orientation::BottomRight));
    assert_eq!(vec![Transform::Flip], normalize_orientation(Orientation::BottomLeft));
    assert_eq!(
        vec![Transform::Rotate270, Transform::Flip],
        normalize_orientation(Orientation::LeftTop)
    );
    assert_eq!(
        vec![Transform::Rotate90, Transform::Flip],
        normalize_orientation(Orientation::RightBottom)
    );
    assert_eq!(vec![Transform::Rotate270], normalize_orientation(Orientation::LeftBottom));
}

#[test]
fn steps_have_their_angles() {
    assert_eq!(0, Transform::Flop.degrees());
    assert_eq!(0, Transform::Flip.degrees());
    assert_eq!(90, Transform::Rotate90.degrees());
    assert_eq!(180, Transform::Rotate180.degrees());
    assert_eq!(270, Transform::Rotate270.degrees());
}

// The corners of a picture, clockwise from the top left one: the stored
// image is a square of four pixels, and each step moves them.
fn apply(step: Transform, corners: [u8; 4]) -> [u8; 4] {
    let [tl, tr, br, bl] = corners;
    match step {
        Transform::Flop => [tr, tl, bl, br],
        Transform::Flip => [bl, br, tr, tl],
        Transform::Rotate90 => [bl, tl, tr, br],
        Transform::Rotate180 => [br, bl, tl, tr],
        Transform::Rotate270 => [tr, br, bl, tl],
    }
}

#[test]
fn the_steps_bring_the_first_row_and_column_where_the_tag_says() {
    // Stored corners: 0 and 1 are the first row, 0 and 3 the first column.
    let stored = [0u8, 1, 2, 3];
    let cases = [
        (Orientation::TopLeft, [0u8, 1, 2, 3]),
        (Orientation::TopRight, [1, 0, 3, 2]),
        (Orientation::BottomRight, [2, 3, 0, 1]),
        (Orientation::BottomLeft, [3, 2, 1, 0]),
        (Orientation::LeftTop, [0, 3, 2, 1]),
        (Orientation::RightTop, [3, 0, 1, 2]),
        (Orientation::RightBottom, [2, 1, 0, 3]),
        (Orientation::LeftBottom, [1, 2, 3, 0]),
    ];
    for (tag, shown) in cases {
        let mut corners = stored;
        for step in normalize_orientation(tag) {
            corners = apply(step, corners);
        }
        assert_eq!(shown, corners, "{:?}", tag);
    }
}
