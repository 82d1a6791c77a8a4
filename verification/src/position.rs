//! Bounding boxes and the outlines they are made from.

use vstd::prelude::*;

verus! {

/// The inclusive bounding box of something.
///
/// The elements on the border are part of the thing, so a single pixel has
/// its own coordinates and a width and a height of 1.
#[derive(Debug, Copy, Clone, PartialEq, Eq, Structural)]
pub struct Position {
    pub x: u32,
    pub y: u32,
    pub width: u32,
    pub height: u32,
}

/// A pixel coordinate of an outline.
#[derive(Debug, Copy, Clone, PartialEq, Eq, Structural)]
pub struct Point {
    pub x: i32,
    pub y: i32,
}

/// The border of a connected region: its points in the order in which the
/// border was followed.
#[derive(Debug)]
pub struct Outline {
    pub points: Vec<Point>,
}

impl View for Outline {
    type V = Seq<(int, int)>;

    open spec fn view(&self) -> Seq<(int, int)> {
        self.points@.map_values(|p: Point| (p.x as int, p.y as int))
    }
}

/// Why an outline has no bounding box.
#[derive(Debug, Copy, Clone, PartialEq, Eq, Structural)]
pub enum OutlineError {
    /// The outline has no points.
    NoPoints,
    /// A point of the outline lies left of or above the origin.
    NegativeCoordinate,
}

/// Whether a point of `points` has a negative coordinate.
pub open spec fn has_negative(points: Seq<(int, int)>) -> bool {
    exists|i: int| 0 <= i < points.len() && (points[i].0 < 0 || points[i].1 < 0)
}

/// Whether `pos` is the smallest box that holds every point of `points`:
/// every point lies in it, and each of its four sides holds a point.
pub open spec fn is_bounding_box(points: Seq<(int, int)>, pos: Position) -> bool {
    &&& pos.width >= 1
    &&& pos.height >= 1
    &&& forall|i: int|
        0 <= i < points.len() ==> pos.x <= (#[trigger] points[i]).0 < pos.x + pos.width && pos.y
            <= points[i].1 < pos.y + pos.height
    &&& exists|i: int| 0 <= i < points.len() && (#[trigger] points[i]).0 == pos.x
    &&& exists|i: int| 0 <= i < points.len() && (#[trigger] points[i]).0 == pos.x + pos.width - 1
    &&& exists|i: int| 0 <= i < points.len() && (#[trigger] points[i]).1 == pos.y
    &&& exists|i: int| 0 <= i < points.len() && (#[trigger] points[i]).1 == pos.y + pos.height - 1
}

/// The smallest box that holds every point of `points`, where there is one.
pub open spec fn bounding_box(points: Seq<(int, int)>) -> Option<Position> {
    if exists|pos: Position| is_bounding_box(points, pos) {
        Some(choose|pos: Position| is_bounding_box(points, pos))
    } else {
        None
    }
}

/// The points of an outline have at most one bounding box.
pub proof fn lemma_bounding_box_unique(points: Seq<(int, int)>, a: Position, b: Position)
    requires
        is_bounding_box(points, a),
        is_bounding_box(points, b),
    ensures
        a == b,
{
    // A point on the left side of one box lies within the other, and so
    // for every side.
    assert(a.x == b.x);
    assert(a.y == b.y);
    assert(a.width == b.width);
    assert(a.height == b.height);
}

impl Position {
    /// Finds the bounding box of the points of an outline.
    ///
    /// An outline without points has none, nor has one that leaves the
    /// quadrant of the pixel coordinates.
    pub fn try_from(outline: &Outline) -> (res: Result<Position, OutlineError>)
        ensures
            match res {
                Ok(pos) => is_bounding_box(outline@, pos) && bounding_box(outline@) == Some(pos),
                Err(OutlineError::NoPoints) => outline@.len() == 0 && bounding_box(outline@)
                    is None,
                Err(OutlineError::NegativeCoordinate) => outline@.len() > 0 && has_negative(
                    outline@,
                ) && bounding_box(outline@) is None,
            },
    {
        let points = &outline.points;
        if points.len() < 1 {
            assert forall|pos: Position| !is_bounding_box(outline@, pos) by {}
            return Err(OutlineError::NoPoints);
        }
        let first = points[0];
        let mut x_min: i32 = first.x;
        let mut x_max: i32 = first.x;
        let mut y_min: i32 = first.y;
        let mut y_max: i32 = first.y;
        let ghost mut at_x_min: int = 0;
        let ghost mut at_x_max: int = 0;
        let ghost mut at_y_min: int = 0;
        let ghost mut at_y_max: int = 0;
        let mut i: usize = 1;
        while i < points.len()
            invariant
                1 <= i <= points.len(),
                points == &outline.points,
                0 <= at_x_min < i && outline@[at_x_min].0 == x_min,
                0 <= at_x_max < i && outline@[at_x_max].0 == x_max,
                0 <= at_y_min < i && outline@[at_y_min].1 == y_min,
                0 <= at_y_max < i && outline@[at_y_max].1 == y_max,
                forall|j: int|
                    0 <= j < i ==> x_min <= (#[trigger] outline@[j]).0 <= x_max && y_min
                        <= outline@[j].1 <= y_max,
            decreases points.len() - i,
        {
            let point = points[i];
            assert(outline@[i as int] == (point.x as int, point.y as int));
            if point.x < x_min {
                x_min = point.x;
                proof {
                    at_x_min = i as int;
                }
            }
            if point.x > x_max {
                x_max = point.x;
                proof {
                    at_x_max = i as int;
                }
            }
            if point.y < y_min {
                y_min = point.y;
                proof {
                    at_y_min = i as int;
                }
            }
            if point.y > y_max {
                y_max = point.y;
                proof {
                    at_y_max = i as int;
                }
            }
            i = i + 1;
        }
        if x_min < 0 || y_min < 0 {
            assert(outline@[at_x_min].0 < 0 || outline@[at_y_min].1 < 0);
            assert forall|pos: Position| !is_bounding_box(outline@, pos) by {
                if is_bounding_box(outline@, pos) {
                    assert(pos.x <= outline@[at_x_min].0);
                    assert(pos.y <= outline@[at_y_min].1);
                }
            }
            return Err(OutlineError::NegativeCoordinate);
        }
        let pos = Position {
            x: x_min as u32,
            y: y_min as u32,
            width: (x_max - x_min) as u32 + 1,
            height: (y_max - y_min) as u32 + 1,
        };
        assert(outline@[at_x_min].0 == pos.x);
        assert(outline@[at_x_max].0 == pos.x + pos.width - 1);
        assert(outline@[at_y_min].1 == pos.y);
        assert(outline@[at_y_max].1 == pos.y + pos.height - 1);
        proof {
            assert(is_bounding_box(outline@, pos));
            lemma_bounding_box_unique(outline@, pos, bounding_box(outline@).unwrap());
        }
        Ok(pos)
    }
}

} // verus!
