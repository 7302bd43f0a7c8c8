//! Undoing the orientation that an image was stored in.
//!
//! An orientation tag names the two sides of the displayed picture at which
//! the first stored row and the first stored column belong. For each tag
//! there is a short list of flips and quarter turns that moves the stored
//! pixels there, so that the picture can then be shown as stored.

use vstd::prelude::*;

verus! {

/// How the stored pixels of an image lie relative to the picture they show.
/// The first word names the side of the picture where the first stored row
/// belongs, the second word the side where the first stored column belongs.
#[derive(Debug, Clone, Copy, PartialEq, Eq, Structural)]
pub enum Orientation {
    Undefined,
    TopLeft,
    TopRight,
    BottomRight,
    BottomLeft,
    LeftTop,
    RightTop,
    RightBottom,
    LeftBottom,
}

/// One step that the image engine can apply to the stored pixels.
#[derive(Debug, Clone, Copy, PartialEq, Eq, Structural)]
pub enum Transform {
    /// Mirror left and right.
    Flop,
    /// Mirror top and bottom.
    Flip,
    /// Turn clockwise by a quarter.
    Rotate90,
    /// Turn by a half.
    Rotate180,
    /// Turn clockwise by three quarters.
    Rotate270,
}

/// A side of a picture.
#[derive(Debug, Clone, Copy, PartialEq, Eq, Structural)]
pub enum Side {
    Top,
    Right,
    Bottom,
    Left,
}

impl Side {
    /// The side that lies a quarter turn clockwise from this one.
    pub open spec fn clockwise(self) -> Side {
        match self {
            Side::Top => Side::Right,
            Side::Right => Side::Bottom,
            Side::Bottom => Side::Left,
            Side::Left => Side::Top,
        }
    }
}

impl Transform {
    /// The side to which this step carries the pixels of side `side`.
    pub open spec fn carries(self, side: Side) -> Side {
        match self {
            Transform::Flop => match side {
                Side::Left => Side::Right,
                Side::Right => Side::Left,
                other => other,
            },
            Transform::Flip => match side {
                Side::Top => Side::Bottom,
                Side::Bottom => Side::Top,
                other => other,
            },
            Transform::Rotate90 => side.clockwise(),
            Transform::Rotate180 => side.clockwise().clockwise(),
            Transform::Rotate270 => side.clockwise().clockwise().clockwise(),
        }
    }

    /// The clockwise angle of a turn in degrees, `0` for a flip.
    pub open spec fn turn(self) -> nat {
        match self {
            Transform::Flop => 0,
            Transform::Flip => 0,
            Transform::Rotate90 => 90,
            Transform::Rotate180 => 180,
            Transform::Rotate270 => 270,
        }
    }

    /// The clockwise angle of this step in degrees, `0` for a flip.
    pub fn degrees(&self) -> (angle: u16)
        ensures
            angle == self.turn(),
    {
        match self {
            Transform::Flop => 0,
            Transform::Flip => 0,
            Transform::Rotate90 => 90,
            Transform::Rotate180 => 180,
            Transform::Rotate270 => 270,
        }
    }
}

/// The side to which a list of steps, applied in order, carries the pixels
/// of side `side`.
pub open spec fn carried(steps: Seq<Transform>, side: Side) -> Side
    decreases steps.len(),
{
    if steps.len() == 0 {
        side
    } else {
        carried(steps.drop_first(), steps[0].carries(side))
    }
}

impl Orientation {
    /// The side of the picture where the first stored row belongs.
    pub open spec fn row_side(self) -> Side {
        match self {
            Orientation::Undefined | Orientation::TopLeft | Orientation::TopRight => Side::Top,
            Orientation::BottomRight | Orientation::BottomLeft => Side::Bottom,
            Orientation::LeftTop | Orientation::LeftBottom => Side::Left,
            Orientation::RightTop | Orientation::RightBottom => Side::Right,
        }
    }

    /// The side of the picture where the first stored column belongs.
    pub open spec fn column_side(self) -> Side {
        match self {
            Orientation::Undefined | Orientation::TopLeft | Orientation::BottomLeft => Side::Left,
            Orientation::TopRight | Orientation::BottomRight => Side::Right,
            Orientation::LeftTop | Orientation::RightTop => Side::Top,
            Orientation::RightBottom | Orientation::LeftBottom => Side::Bottom,
        }
    }

    /// Whether undoing this orientation exchanges width and height.
    pub open spec fn is_transposed(self) -> bool {
        self.row_side() == Side::Left || self.row_side() == Side::Right
    }

    /// The steps that undo this orientation, in the order in which they are
    /// applied.
    pub open spec fn transforms(self) -> Seq<Transform> {
        match self {
            Orientation::Undefined | Orientation::TopLeft => seq![],
            Orientation::TopRight => seq![Transform::Flop],
            Orientation::BottomRight => seq![Transform::Rotate180],
            Orientation::BottomLeft => seq![Transform::Flip],
            Orientation::LeftTop => seq![Transform::Rotate270, Transform::Flip],
            Orientation::RightTop => seq![Transform::Rotate90],
            Orientation::RightBottom => seq![Transform::Rotate90, Transform::Flip],
            Orientation::LeftBottom => seq![Transform::Rotate270],
        }
    }
}

/// The steps of every orientation carry the first stored row and the first
/// stored column to the sides that the orientation names.
pub proof fn lemma_transforms_restore_picture(tag: Orientation)
    ensures
        carried(tag.transforms(), Side::Top) == tag.row_side(),
        carried(tag.transforms(), Side::Left) == tag.column_side(),
{
    let steps = tag.transforms();
    reveal_with_fuel(carried, 3);
    if steps.len() == 2 {
        assert(steps.drop_first().len() == 1);
        assert(steps.drop_first()[0] == steps[1]);
        assert(steps.drop_first().drop_first().len() == 0);
    } else if steps.len() == 1 {
        assert(steps.drop_first().len() == 0);
    }
}

/// The steps that undo the orientation `tag`: none for an image that is
/// stored upright or whose orientation is not known, one or two otherwise.
pub fn normalize_orientation(tag: Orientation) -> (steps: Vec<Transform>)
    ensures
        steps@ == tag.transforms(),
        carried(steps@, Side::Top) == tag.row_side(),
        carried(steps@, Side::Left) == tag.column_side(),
{
    proof {
        lemma_transforms_restore_picture(tag);
    }
    let mut steps: Vec<Transform> = Vec::new();
    match tag {
        Orientation::Undefined | Orientation::TopLeft => {},
        Orientation::TopRight => {
            steps.push(Transform::Flop);
        },
        Orientation::BottomRight => {
            steps.push(Transform::Rotate180);
        },
        Orientation::BottomLeft => {
            steps.push(Transform::Flip);
        },
        Orientation::LeftTop => {
            steps.push(Transform::Rotate270);
            steps.push(Transform::Flip);
        },
        Orientation::RightTop => {
            steps.push(Transform::Rotate90);
        },
        Orientation::RightBottom => {
            steps.push(Transform::Rotate90);
            steps.push(Transform::Flip);
        },
        Orientation::LeftBottom => {
            steps.push(Transform::Rotate270);
        },
    }
    assert(steps@ =~= tag.transforms());
    steps
}

} // verus!
