//! The plane the creature lives on: fixed-point coordinates, the four
//! headings, the field bounds and the proximity tests.
//!
//! Coordinates are whole numbers of thousandths of a step, so that every
//! comparison is exact: the creature moves by `UNIT` per tick while the food
//! may lie anywhere between two grid lines.

use vstd::prelude::*;

verus! {

/// One step of the creature, in coordinate units.
pub const UNIT: i128 = 1000;

/// The field reaches from `-HALF_WIDTH` to `HALF_WIDTH` on the x axis.
pub const HALF_WIDTH: i128 = 90000;

/// The field reaches from `-HALF_HEIGHT` to `HALF_HEIGHT` on the y axis.
pub const HALF_HEIGHT: i128 = 45000;

/// The head picks the food up when it is closer than this on both axes.
pub const PICKUP_TOLERANCE: i128 = 2000;

/// The head runs into a segment when it is closer than this on both axes.
pub const COLLISION_TOLERANCE: i128 = 1000;

/// No head is ever further than this from the centre on either axis. The
/// bound is far beyond the field and leaves room in the coordinates for the
/// longest chain a `Vec` can hold behind the head.
pub const HEAD_LIMIT: i128 = 1_000_000_000_000_000_000_000_000_000_000;

/// A heading: one of the four unit vectors of the plane.
#[derive(Clone, Copy, Debug, PartialEq, Eq, Structural)]
pub enum Direction {
    Right,
    Left,
    Up,
    Down,
}

impl Direction {
    /// How far one step in this heading moves along the x axis.
    pub open spec fn step_x(self) -> int {
        match self {
            Direction::Right => UNIT as int,
            Direction::Left => -(UNIT as int),
            Direction::Up => 0,
            Direction::Down => 0,
        }
    }

    /// How far one step in this heading moves along the y axis.
    pub open spec fn step_y(self) -> int {
        match self {
            Direction::Right => 0,
            Direction::Left => 0,
            Direction::Up => UNIT as int,
            Direction::Down => -(UNIT as int),
        }
    }

    /// The heading that points the other way.
    pub open spec fn opposite(self) -> Direction {
        match self {
            Direction::Right => Direction::Left,
            Direction::Left => Direction::Right,
            Direction::Up => Direction::Down,
            Direction::Down => Direction::Up,
        }
    }

    /// The x component of one step in this heading.
    pub fn dx(self) -> (d: i128)
        ensures
            d == self.step_x(),
    {
        match self {
            Direction::Right => UNIT,
            Direction::Left => -UNIT,
            Direction::Up => 0,
            Direction::Down => 0,
        }
    }

    /// The y component of one step in this heading.
    pub fn dy(self) -> (d: i128)
        ensures
            d == self.step_y(),
    {
        match self {
            Direction::Right => 0,
            Direction::Left => 0,
            Direction::Up => UNIT,
            Direction::Down => -UNIT,
        }
    }

    /// The heading that points the other way.
    pub fn reversed(self) -> (r: Direction)
        ensures
            r == self.opposite(),
    {
        match self {
            Direction::Right => Direction::Left,
            Direction::Left => Direction::Right,
            Direction::Up => Direction::Down,
            Direction::Down => Direction::Up,
        }
    }
}

/// The heading kept after a request to turn: a request to reverse on the
/// spot is ignored, any other request is taken at once.
pub open spec fn steer(current: Direction, wanted: Direction) -> Direction {
    if wanted == current.opposite() {
        current
    } else {
        wanted
    }
}

/// A point of the plane, as the contracts see it.
pub struct Point {
    pub x: int,
    pub y: int,
}

impl Point {
    /// The point one step further in heading `dir`.
    pub open spec fn advanced(self, dir: Direction) -> Point {
        Point { x: self.x + dir.step_x(), y: self.y + dir.step_y() }
    }

    /// The point one step back against heading `dir`.
    pub open spec fn retreated(self, dir: Direction) -> Point {
        Point { x: self.x - dir.step_x(), y: self.y - dir.step_y() }
    }

    /// Whether the point lies inside the field, its border included.
    pub open spec fn in_field(self) -> bool {
        &&& -(HALF_WIDTH as int) <= self.x <= HALF_WIDTH as int
        &&& -(HALF_HEIGHT as int) <= self.y <= HALF_HEIGHT as int
    }

    /// Whether the point lies at most one step outside the field.
    pub open spec fn near_field(self) -> bool {
        &&& -(HALF_WIDTH as int) - UNIT as int <= self.x <= HALF_WIDTH as int + UNIT as int
        &&& -(HALF_HEIGHT as int) - UNIT as int <= self.y <= HALF_HEIGHT as int + UNIT as int
    }

    /// Whether a head may stand here: no further than `HEAD_LIMIT` from the
    /// centre on either axis.
    pub open spec fn in_range(self) -> bool {
        &&& -(HEAD_LIMIT as int) <= self.x <= HEAD_LIMIT as int
        &&& -(HEAD_LIMIT as int) <= self.y <= HEAD_LIMIT as int
    }

    /// Whether a head that stands here may take a step in any heading.
    pub open spec fn can_step(self) -> bool {
        &&& -(HEAD_LIMIT as int) + UNIT as int <= self.x <= HEAD_LIMIT as int - UNIT as int
        &&& -(HEAD_LIMIT as int) + UNIT as int <= self.y <= HEAD_LIMIT as int - UNIT as int
    }

    /// Whether food may be dropped here: inside the field, its right and
    /// upper border excluded.
    pub open spec fn spawnable(self) -> bool {
        &&& -(HALF_WIDTH as int) <= self.x < HALF_WIDTH as int
        &&& -(HALF_HEIGHT as int) <= self.y < HALF_HEIGHT as int
    }

    /// Whether `self` and `other` are closer than `tolerance` on both axes.
    pub open spec fn touches(self, other: Point, tolerance: int) -> bool {
        is_near(self.x, other.x, tolerance) && is_near(self.y, other.y, tolerance)
    }
}

/// The distance between two coordinates on one axis.
pub open spec fn distance(a: int, b: int) -> int {
    if a >= b {
        a - b
    } else {
        b - a
    }
}

/// Whether two coordinates on one axis are closer than `tolerance`.
pub open spec fn is_near(a: int, b: int, tolerance: int) -> bool {
    distance(a, b) < tolerance
}

/// Where food lands when `drawn` was drawn for it: at `drawn`, unless the
/// head is exactly there, in which case the food moves aside by the smallest
/// amount that keeps it in the field.
pub open spec fn settled_spot(head: Point, drawn: Point) -> Point {
    if drawn != head {
        drawn
    } else if drawn.x + 1 < HALF_WIDTH as int {
        Point { x: drawn.x + 1, y: drawn.y }
    } else {
        Point { x: drawn.x - 1, y: drawn.y }
    }
}

/// A point of the plane in fixed-point coordinates.
///
/// The coordinates are wide enough for every segment of every chain that a
/// `Vec` can hold: segment `i` is at most `i + 1` steps away from the head,
/// and the head no further than `HEAD_LIMIT` from the centre.
#[derive(Clone, Copy, Debug, PartialEq, Eq, Structural)]
pub struct Position {
    pub x: i128,
    pub y: i128,
}

impl View for Position {
    type V = Point;

    open spec fn view(&self) -> Point {
        Point { x: self.x as int, y: self.y as int }
    }
}

impl Position {
    /// The position with the given coordinates.
    pub fn new(x: i128, y: i128) -> (p: Position)
        ensures
            p.x == x,
            p.y == y,
    {
        Position { x, y }
    }

    /// The position one step further in heading `dir`.
    pub fn advanced(self, dir: Direction) -> (p: Position)
        requires
            i128::MIN + UNIT <= self.x <= i128::MAX - UNIT,
            i128::MIN + UNIT <= self.y <= i128::MAX - UNIT,
        ensures
            p@ == self@.advanced(dir),
    {
        Position { x: self.x + dir.dx(), y: self.y + dir.dy() }
    }

    /// The position one step back against heading `dir`.
    pub fn retreated(self, dir: Direction) -> (p: Position)
        requires
            i128::MIN + UNIT <= self.x <= i128::MAX - UNIT,
            i128::MIN + UNIT <= self.y <= i128::MAX - UNIT,
        ensures
            p@ == self@.retreated(dir),
    {
        Position { x: self.x - dir.dx(), y: self.y - dir.dy() }
    }

    /// Whether the position lies strictly beyond one of the four borders of
    /// the field.
    pub fn out_of_bounds(self) -> (out: bool)
        ensures
            out == !self@.in_field(),
    {
        self.x > HALF_WIDTH || self.x < -HALF_WIDTH || self.y > HALF_HEIGHT || self.y
            < -HALF_HEIGHT
    }

    /// Whether a head that stands here may take a step in any heading.
    pub fn can_step(self) -> (free: bool)
        ensures
            free == self@.can_step(),
    {
        -HEAD_LIMIT + UNIT <= self.x && self.x <= HEAD_LIMIT - UNIT && -HEAD_LIMIT + UNIT
            <= self.y && self.y <= HEAD_LIMIT - UNIT
    }

    /// Whether food may be dropped here: inside the field, its right and
    /// upper border excluded.
    pub fn can_hold_food(self) -> (free: bool)
        ensures
            free == self@.spawnable(),
    {
        -HALF_WIDTH <= self.x && self.x < HALF_WIDTH && -HALF_HEIGHT <= self.y && self.y
            < HALF_HEIGHT
    }

    /// Whether `self` and `other` are closer than `tolerance` on both axes.
    pub fn touches(self, other: Position, tolerance: i128) -> (close: bool)
        ensures
            close == self@.touches(other@, tolerance as int),
    {
        check_if_equal(self.x, other.x, tolerance) && check_if_equal(self.y, other.y, tolerance)
    }
}

/// Whether `x1` lies strictly between `x2 - d` and `x2 + d`.
pub fn check_if_equal(x1: i128, x2: i128, d: i128) -> (near: bool)
    ensures
        near == is_near(x1 as int, x2 as int, d as int),
        near == (x2 - d < x1 && x1 < x2 + d),
{
    if d <= 0 {
        false
    } else if x1 >= x2 {
        if x2 > i128::MAX - d {
            true
        } else {
            x1 < x2 + d
        }
    } else {
        if x1 > i128::MAX - d {
            true
        } else {
            x2 < x1 + d
        }
    }
}

/// Where food lands when `drawn` was drawn for it while the head is at
/// `head`: never on the head, and in the part of the field where food may
/// lie whenever `drawn` is.
pub fn food_spot(head: Position, drawn: Position) -> (spot: Position)
    ensures
        spot@ == settled_spot(head@, drawn@),
        spot@ != head@,
        drawn@.spawnable() ==> spot@.spawnable(),
{
    if drawn.x != head.x || drawn.y != head.y {
        drawn
    } else if drawn.x < HALF_WIDTH - 1 {
        Position { x: drawn.x + 1, y: drawn.y }
    } else {
        Position { x: drawn.x - 1, y: drawn.y }
    }
}

/// Whether the cell one step from `pos` in heading `direction` is taken by
/// one of `segments`.
pub fn check_blocked(
    segments: &Vec<Position>,
    pos: Position,
    direction: Direction,
) -> (blocked: bool)
    ensures
        blocked == exists|i: int|
            0 <= i < segments@.len() && (#[trigger] segments@[i])@ == pos@.advanced(direction),
{
    let target = match (pos.x.checked_add(direction.dx()), pos.y.checked_add(direction.dy())) {
        (Some(x), Some(y)) => Position { x, y },
        _ => {
            return false;
        },
    };
    let mut i: usize = 0;
    while i < segments.len()
        invariant
            i <= segments@.len(),
            target@ == pos@.advanced(direction),
            forall|j: int| 0 <= j < i ==> (#[trigger] segments@[j])@ != target@,
        decreases segments@.len() - i,
    {
        let seg = segments[i];
        if seg.x == target.x && seg.y == target.y {
            return true;
        }
        i += 1;
    }
    false
}

} // verus!
