//! Grid coordinates, checked point arithmetic, the playing field's bounds and
//! the four directions of motion.

use vstd::prelude::*;

verus! {

/// One grid coordinate; the terminal counts cells from 1.
pub type Coordinate = u16;

/// A grid cell as `(x, y)`.
pub type Point = (Coordinate, Coordinate);

/// Whether `v` is a value that a `Coordinate` can hold.
pub open spec fn fits_coordinate(v: int) -> bool {
    0 <= v <= Coordinate::MAX
}

/// The component-wise sum of two points, when both components fit.
pub open spec fn add_spec(lhs: Point, rhs: Point) -> Option<Point> {
    let x = lhs.0 + rhs.0;
    let y = lhs.1 + rhs.1;
    if fits_coordinate(x) && fits_coordinate(y) {
        Some((x as Coordinate, y as Coordinate))
    } else {
        None
    }
}

/// The component-wise difference of two points, when neither component
/// goes below zero.
pub open spec fn sub_spec(lhs: Point, rhs: Point) -> Option<Point> {
    let x = lhs.0 - rhs.0;
    let y = lhs.1 - rhs.1;
    if fits_coordinate(x) && fits_coordinate(y) {
        Some((x as Coordinate, y as Coordinate))
    } else {
        None
    }
}

/// Adds two points component-wise; `None` where a component would overflow.
pub fn checked_add(lhs: &Point, rhs: &Point) -> (r: Option<Point>)
    ensures
        r == add_spec(*lhs, *rhs),
{
    match (lhs.0.checked_add(rhs.0), lhs.1.checked_add(rhs.1)) {
        (Some(x), Some(y)) => Some((x, y)),
        _ => None,
    }
}

/// Subtracts two points component-wise; `None` where a component would
/// underflow.
pub fn checked_sub(lhs: &Point, rhs: &Point) -> (r: Option<Point>)
    ensures
        r == sub_spec(*lhs, *rhs),
{
    match (lhs.0.checked_sub(rhs.0), lhs.1.checked_sub(rhs.1)) {
        (Some(x), Some(y)) => Some((x, y)),
        _ => None,
    }
}

/// Whether `a` and `b` are the same cell.
pub fn same_point(a: &Point, b: &Point) -> (r: bool)
    ensures
        r == (*a == *b),
{
    a.0 == b.0 && a.1 == b.1
}

/// The rectangle of the playing field. Its border cells are wall; only the
/// cells strictly inside it can be entered.
pub struct ScreenExtent {
    pub top_left: Point,
    pub bottom_right: Point,
    pub width: Coordinate,
    pub height: Coordinate,
}

impl ScreenExtent {
    /// The corners are `(1, 1)` and `(width, height)`, and the field is wider
    /// and taller than one cell.
    pub open spec fn wf(&self) -> bool {
        &&& self.top_left == (1u16, 1u16)
        &&& self.bottom_right == (self.width, self.height)
        &&& self.width > 1
        &&& self.height > 1
    }

    /// Whether `pt` lies strictly inside the border.
    pub open spec fn contains_spec(&self, pt: Point) -> bool {
        &&& self.top_left.0 < pt.0 < self.bottom_right.0
        &&& self.top_left.1 < pt.1 < self.bottom_right.1
    }

    /// The field of `width` by `height` cells whose top left cell is `(1, 1)`.
    pub fn new(width: Coordinate, height: Coordinate) -> (r: ScreenExtent)
        requires
            width > 1,
            height > 1,
        ensures
            r.wf(),
            r.width == width,
            r.height == height,
    {
        ScreenExtent { top_left: (1, 1), bottom_right: (width, height), width, height }
    }

    /// The field of the size the terminal reported, or of `default` where it
    /// reported none; `None` where that size is too small for a field.
    pub fn from_measured(
        measured: Option<(Coordinate, Coordinate)>,
        default: (Coordinate, Coordinate),
    ) -> (r: Option<ScreenExtent>)
        ensures
            ({
                let size = match measured {
                    Some(size) => size,
                    None => default,
                };
                match r {
                    Some(extent) => size.0 > 1 && size.1 > 1 && extent.wf() && extent.width
                        == size.0 && extent.height == size.1,
                    None => !(size.0 > 1 && size.1 > 1),
                }
            }),
    {
        let (width, height) = match measured {
            Some(size) => size,
            None => default,
        };
        if width > 1 && height > 1 {
            Some(ScreenExtent::new(width, height))
        } else {
            None
        }
    }

    /// Whether `pt` lies strictly inside the border.
    pub fn contains(&self, pt: &Point) -> (r: bool)
        ensures
            r == self.contains_spec(*pt),
    {
        pt.0 > self.top_left.0 && pt.0 < self.bottom_right.0 && pt.1 > self.top_left.1 && pt.1
            < self.bottom_right.1
    }
}

/// A point lies inside a well-formed field exactly when both of its
/// coordinates lie strictly between 1 and the field's width and height.
pub proof fn lemma_contains_interior(extent: ScreenExtent, pt: Point)
    requires
        extent.wf(),
    ensures
        extent.contains_spec(pt) <==> (1 < pt.0 < extent.width && 1 < pt.1 < extent.height),
{
}

/// A direction of motion on the grid; `Up` lowers `y`.
#[derive(Clone, Copy, Debug, PartialEq, Eq, Structural)]
pub enum Direction {
    Up,
    Down,
    Left,
    Right,
}

/// The cell one step from `pt` in direction `dir`, when it has coordinates.
pub open spec fn move_spec(pt: Point, dir: Direction) -> Option<Point> {
    match dir {
        Direction::Up => sub_spec(pt, (0u16, 1u16)),
        Direction::Down => add_spec(pt, (0u16, 1u16)),
        Direction::Left => sub_spec(pt, (1u16, 0u16)),
        Direction::Right => add_spec(pt, (1u16, 0u16)),
    }
}

/// Steps `pt` one cell in direction `dir`; `None` where that would leave the
/// range of coordinates.
pub fn move_point(pt: &Point, dir: &Direction) -> (r: Option<Point>)
    ensures
        r == move_spec(*pt, *dir),
{
    match dir {
        Direction::Up => checked_sub(pt, &(0, 1)),
        Direction::Down => checked_add(pt, &(0, 1)),
        Direction::Left => checked_sub(pt, &(1, 0)),
        Direction::Right => checked_add(pt, &(1, 0)),
    }
}

} // verus!
