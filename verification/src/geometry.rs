use vstd::prelude::*;

verus! {

/// Proximity threshold, in length units: a pointer closer than this to a port
/// counts as being on that port.
pub const SNAP_DISTANCE: i64 = 15;

/// Largest magnitude of a coordinate that the distance computation accepts.
pub const COORD_LIMIT: i64 = 0x100_0000_0000;

/// A point of the editing surface, in whole length units.
#[derive(Clone, Copy, Debug, PartialEq, Eq, Structural)]
pub struct Point {
    pub x: i64,
    pub y: i64,
}

impl View for Point {
    type V = (int, int);

    open spec fn view(&self) -> (int, int) {
        (self.x as int, self.y as int)
    }
}

impl Point {
    /// Both coordinates lie within `COORD_LIMIT` of the origin.
    pub open spec fn in_range(self) -> bool {
        &&& -COORD_LIMIT <= self.x <= COORD_LIMIT
        &&& -COORD_LIMIT <= self.y <= COORD_LIMIT
    }

    /// Both coordinates are such as a pointer event reports.
    pub open spec fn in_pointer_range(self) -> bool {
        &&& i32::MIN <= self.x <= i32::MAX
        &&& i32::MIN <= self.y <= i32::MAX
    }

    pub fn new(x: i64, y: i64) -> (p: Point)
        ensures
            p.x == x,
            p.y == y,
    {
        Point { x, y }
    }
}

/// A point of the surface whose coordinates are fractions over one
/// denominator: the point `(x / den, y / den)`. The fractions are kept as
/// they were computed, not reduced.
#[derive(Clone, Copy, Debug, PartialEq, Eq, Structural)]
pub struct FracPoint {
    pub x: i128,
    pub y: i128,
    pub den: i128,
}

impl View for FracPoint {
    type V = (int, int, int);

    open spec fn view(&self) -> (int, int, int) {
        (self.x as int, self.y as int, self.den as int)
    }
}

impl FracPoint {
    /// The point `p`, over the denominator one.
    pub fn whole(p: Point) -> (f: FracPoint)
        ensures
            f@ == (p.x as int, p.y as int, 1int),
    {
        FracPoint { x: p.x as i128, y: p.y as i128, den: 1 }
    }
}

/// Squared Euclidean distance between two points of the plane.
pub open spec fn squared_distance_spec(p: (int, int), q: (int, int)) -> int {
    (p.0 - q.0) * (p.0 - q.0) + (p.1 - q.1) * (p.1 - q.1)
}

/// Whether a squared distance lies inside the snap radius.
pub open spec fn within_snap_spec(d: int) -> bool {
    d < SNAP_DISTANCE * SNAP_DISTANCE
}

/// Squared distance from `p` to `q`; the square root is never taken.
pub fn squared_distance(p: Point, q: Point) -> (d: u128)
    requires
        p.in_range(),
        q.in_range(),
    ensures
        d == squared_distance_spec(p@, q@),
{
    let dx: i128 = p.x as i128 - q.x as i128;
    let dy: i128 = p.y as i128 - q.y as i128;
    assert(0 <= dx * dx <= 0x200_0000_0000 * 0x200_0000_0000) by (nonlinear_arith)
        requires
            -0x200_0000_0000 <= dx <= 0x200_0000_0000,
    ;
    assert(0 <= dy * dy <= 0x200_0000_0000 * 0x200_0000_0000) by (nonlinear_arith)
        requires
            -0x200_0000_0000 <= dy <= 0x200_0000_0000,
    ;
    let sx: i128 = dx * dx;
    let sy: i128 = dy * dy;
    (sx + sy) as u128
}

/// Whether the squared distance `d` lies strictly inside the snap radius.
pub fn within_snap(d: u128) -> (near: bool)
    ensures
        near == within_snap_spec(d as int),
{
    d < (SNAP_DISTANCE * SNAP_DISTANCE) as u128
}

/// What the surface reports with a pointer event: the pointer's place on the
/// page, its place inside the element under it, and the buttons held down.
#[derive(Clone, Copy, Debug, PartialEq, Eq, Structural)]
pub struct PointerEvent {
    pub page_x: i32,
    pub page_y: i32,
    pub element_x: i32,
    pub element_y: i32,
    pub held_buttons: u32,
}

impl PointerEvent {
    /// The pointer's place on the page.
    pub open spec fn page(self) -> Point {
        Point { x: self.page_x as i64, y: self.page_y as i64 }
    }

    /// The pointer's place relative to the origin of the element under it.
    pub open spec fn element(self) -> Point {
        Point { x: self.element_x as i64, y: self.element_y as i64 }
    }

    pub fn new(page_x: i32, page_y: i32, element_x: i32, element_y: i32, held_buttons: u32) -> (evt:
        PointerEvent)
        ensures
            evt == (PointerEvent { page_x, page_y, element_x, element_y, held_buttons }),
    {
        PointerEvent { page_x, page_y, element_x, element_y, held_buttons }
    }

    pub fn page_coordinates(&self) -> (p: Point)
        ensures
            p == self.page(),
            p.in_range(),
    {
        Point { x: self.page_x as i64, y: self.page_y as i64 }
    }

    pub fn element_coordinates(&self) -> (p: Point)
        ensures
            p == self.element(),
            p.in_range(),
    {
        Point { x: self.element_x as i64, y: self.element_y as i64 }
    }

    /// True when no button is held down.
    pub fn no_buttons_held(&self) -> (none: bool)
        ensures
            none == (self.held_buttons == 0),
    {
        self.held_buttons == 0
    }
}

} // verus!
