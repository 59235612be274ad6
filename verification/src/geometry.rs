//! Screen geometry in whole sub-points.
//!
//! A coordinate counts 1/256 of a point. Frames reported by the system are
//! rounded to that grid on their way in.

use vstd::prelude::*;

verus! {

/// Sub-points per point.
pub const GRID: i64 = 256;

#[derive(Copy, Clone, Debug, PartialEq, Eq, Structural)]
pub struct Point {
    pub x: i64,
    pub y: i64,
}

#[derive(Copy, Clone, Debug, PartialEq, Eq, Structural)]
pub struct Size {
    pub width: i64,
    pub height: i64,
}

#[derive(Copy, Clone, Debug, PartialEq, Eq, Structural)]
pub struct Rect {
    pub origin: Point,
    pub size: Size,
}

/// The bound on coordinates and sizes: far beyond any screen.
pub const LIMIT: i64 = 0x100_0000_0000;

/// How long a frame may be, and how far from the origin a screen may begin.
pub const HALF_LIMIT: i64 = 0x80_0000_0000;

impl Point {
    pub open spec fn in_range(self) -> bool {
        -LIMIT <= self.x <= LIMIT && -LIMIT <= self.y <= LIMIT
    }

    pub fn is_in_range(&self) -> (r: bool)
        ensures
            r == self.in_range(),
    {
        -LIMIT <= self.x && self.x <= LIMIT && -LIMIT <= self.y && self.y <= LIMIT
    }
}

/// The length that two intervals have in common.
pub open spec fn common_length(a_min: int, a_max: int, b_min: int, b_max: int) -> int {
    let low = if a_min < b_min {
        b_min
    } else {
        a_min
    };
    let high = if a_max < b_max {
        a_max
    } else {
        b_max
    };
    if high < low {
        0
    } else {
        high - low
    }
}

/// The gap between two intervals.
pub open spec fn interval_gap_spec(a_min: int, a_max: int, b_min: int, b_max: int) -> int {
    if a_max < b_min {
        b_min - a_max
    } else if b_max < a_min {
        a_min - b_max
    } else {
        0
    }
}

/// The area that two rectangles have in common, in square sub-points.
pub open spec fn overlap(a: Rect, b: Rect) -> int {
    common_length(a.origin.x as int, a.right(), b.origin.x as int, b.right()) * common_length(
        a.origin.y as int,
        a.bottom(),
        b.origin.y as int,
        b.bottom(),
    )
}

/// The squared distance from a rectangle to a point.
pub open spec fn distance_sq_to(frame: Rect, p: Point) -> int {
    let dx = interval_gap_spec(frame.origin.x as int, frame.right(), p.x as int, p.x as int);
    let dy = interval_gap_spec(frame.origin.y as int, frame.bottom(), p.y as int, p.y as int);
    dx * dx + dy * dy
}

pub fn interval_gap(a_min: i64, a_max: i64, b_min: i64, b_max: i64) -> (r: i64)
    requires
        -4 * LIMIT <= a_min <= a_max <= 4 * LIMIT,
        -4 * LIMIT <= b_min <= b_max <= 4 * LIMIT,
    ensures
        r == interval_gap_spec(a_min as int, a_max as int, b_min as int, b_max as int),
        0 <= r <= 8 * LIMIT,
{
    if a_max < b_min {
        b_min - a_max
    } else if b_max < a_min {
        a_min - b_max
    } else {
        0
    }
}

impl Rect {
    pub open spec fn in_range(self) -> bool {
        &&& self.origin.in_range()
        &&& 0 <= self.size.width <= HALF_LIMIT
        &&& 0 <= self.size.height <= HALF_LIMIT
    }

    pub fn is_in_range(&self) -> (r: bool)
        ensures
            r == self.in_range(),
    {
        self.origin.is_in_range() && 0 <= self.size.width && self.size.width <= HALF_LIMIT && 0
            <= self.size.height && self.size.height <= HALF_LIMIT
    }

    /// A frame that a display can have: displays begin at 32-bit points.
    pub open spec fn is_screen(self) -> bool {
        &&& self.in_range()
        &&& -HALF_LIMIT <= self.origin.x <= HALF_LIMIT
        &&& -HALF_LIMIT <= self.origin.y <= HALF_LIMIT
    }

    pub open spec fn right(self) -> int {
        self.origin.x + self.size.width
    }

    pub open spec fn bottom(self) -> int {
        self.origin.y + self.size.height
    }

    /// Whether a point lies in the rectangle or on its edge.
    pub open spec fn holds(self, p: Point) -> bool {
        &&& self.origin.x <= p.x <= self.right()
        &&& self.origin.y <= p.y <= self.bottom()
    }

    /// The middle, rounded down to the grid.
    pub open spec fn middle(self) -> Point {
        Point {
            x: (self.origin.x + self.size.width as int / 2) as i64,
            y: (self.origin.y + self.size.height as int / 2) as i64,
        }
    }

    /// Whether another rectangle lies within this one.
    pub open spec fn encloses(self, other: Rect) -> bool {
        &&& self.origin.x <= other.origin.x && other.right() <= self.right()
        &&& self.origin.y <= other.origin.y && other.bottom() <= self.bottom()
    }

    pub open spec fn area_spec(self) -> int {
        self.size.width * self.size.height
    }

    pub fn max(&self) -> (r: Point)
        requires
            self.in_range(),
        ensures
            r == (Point { x: self.right() as i64, y: self.bottom() as i64 }),
            r.x == self.right(),
            r.y == self.bottom(),
    {
        Point { x: self.origin.x + self.size.width, y: self.origin.y + self.size.height }
    }

    pub fn contains(&self, p: Point) -> (r: bool)
        requires
            self.in_range(),
        ensures
            r == self.holds(p),
    {
        let max: Point = self.max();
        self.origin.x <= p.x && p.x <= max.x && self.origin.y <= p.y && p.y <= max.y
    }

    pub fn contains_rect(&self, other: &Rect) -> (r: bool)
        requires
            self.in_range(),
            other.in_range(),
        ensures
            r == self.encloses(*other),
    {
        let max: Point = self.max();
        let other_max: Point = other.max();
        self.origin.x <= other.origin.x && other_max.x <= max.x && self.origin.y <= other.origin.y
            && other_max.y <= max.y
    }

    pub fn mid(&self) -> (r: Point)
        requires
            self.in_range(),
        ensures
            r == self.middle(),
            self.holds(r),
            -2 * LIMIT <= r.x <= 2 * LIMIT,
            -2 * LIMIT <= r.y <= 2 * LIMIT,
    {
        Point {
            x: self.origin.x + self.size.width / 2,
            y: self.origin.y + self.size.height / 2,
        }
    }

    pub fn area(&self) -> (r: i128)
        requires
            self.in_range(),
        ensures
            r == self.area_spec(),
    {
        let w: i128 = self.size.width as i128;
        let h: i128 = self.size.height as i128;
        assert(0 <= w * h <= 0x100_0000_0000 * 0x100_0000_0000) by (nonlinear_arith)
            requires
                0 <= w <= 0x100_0000_0000,
                0 <= h <= 0x100_0000_0000,
        ;
        w * h
    }

    /// The area in common with another rectangle.
    pub fn overlap_area(&self, other: &Rect) -> (r: i128)
        requires
            self.in_range(),
            other.in_range(),
        ensures
            r == overlap(*self, *other),
            0 <= r,
    {
        let a: Point = self.max();
        let b: Point = other.max();
        let w: i128 = shared_length(self.origin.x, a.x, other.origin.x, b.x) as i128;
        let h: i128 = shared_length(self.origin.y, a.y, other.origin.y, b.y) as i128;
        assert(0 <= w * h <= 0x200_0000_0000 * 0x200_0000_0000) by (nonlinear_arith)
            requires
                0 <= w <= 0x200_0000_0000,
                0 <= h <= 0x200_0000_0000,
        ;
        w * h
    }

    /// The squared distance to a point.
    pub fn distance_sq(&self, p: Point) -> (r: i128)
        requires
            self.in_range(),
            -4 * LIMIT <= p.x <= 4 * LIMIT,
            -4 * LIMIT <= p.y <= 4 * LIMIT,
        ensures
            r == distance_sq_to(*self, p),
            0 <= r,
    {
        let max: Point = self.max();
        let dx: i128 = interval_gap(self.origin.x, max.x, p.x, p.x) as i128;
        let dy: i128 = interval_gap(self.origin.y, max.y, p.y, p.y) as i128;
        assert(0 <= dx * dx <= 0x800_0000_0000 * 0x800_0000_0000) by (nonlinear_arith)
            requires
                0 <= dx <= 0x800_0000_0000,
        ;
        assert(0 <= dy * dy <= 0x800_0000_0000 * 0x800_0000_0000) by (nonlinear_arith)
            requires
                0 <= dy <= 0x800_0000_0000,
        ;
        dx * dx + dy * dy
    }
}

fn shared_length(a_min: i64, a_max: i64, b_min: i64, b_max: i64) -> (r: i64)
    requires
        -LIMIT <= a_min <= a_max <= 2 * LIMIT,
        a_max - a_min <= LIMIT,
        -LIMIT <= b_min <= b_max <= 2 * LIMIT,
    ensures
        r == common_length(a_min as int, a_max as int, b_min as int, b_max as int),
        0 <= r <= LIMIT,
{
    let low: i64 = if a_min < b_min {
        b_min
    } else {
        a_min
    };
    let high: i64 = if a_max < b_max {
        a_max
    } else {
        b_max
    };
    if high < low {
        0
    } else {
        high - low
    }
}

/// Where a length starts that is centred on a stretch, moved as little as it
/// takes to begin on the stretch and then to end on it.
pub open spec fn centred_start(stretch: int, extent: int, length: int) -> int {
    let middle = stretch + extent / 2 - length / 2;
    let begun = if middle < stretch {
        stretch
    } else {
        middle
    };
    let last = stretch + extent - length;
    if begun > last {
        last
    } else {
        begun
    }
}

/// A frame of some size in the middle of a screen.
pub open spec fn centred(screen: Rect, size: Size) -> Rect {
    Rect {
        origin: Point {
            x: centred_start(
                screen.origin.x as int,
                screen.size.width as int,
                size.width as int,
            ) as i64,
            y: centred_start(
                screen.origin.y as int,
                screen.size.height as int,
                size.height as int,
            ) as i64,
        },
        size,
    }
}

fn start_centred(stretch: i64, extent: i64, length: i64) -> (r: i64)
    requires
        -HALF_LIMIT <= stretch <= HALF_LIMIT,
        0 <= extent <= HALF_LIMIT,
        0 <= length <= HALF_LIMIT,
    ensures
        r == centred_start(stretch as int, extent as int, length as int),
        -LIMIT <= r <= LIMIT,
{
    let middle: i64 = stretch + extent / 2 - length / 2;
    let begun: i64 = if middle < stretch {
        stretch
    } else {
        middle
    };
    let last: i64 = stretch + extent - length;
    if begun > last {
        last
    } else {
        begun
    }
}

/// Puts a frame of some size in the middle of a screen.
pub fn centre_on(screen: &Rect, size: Size) -> (r: Rect)
    requires
        screen.is_screen(),
        0 <= size.width <= HALF_LIMIT,
        0 <= size.height <= HALF_LIMIT,
    ensures
        r == centred(*screen, size),
        r.in_range(),
{
    Rect {
        origin: Point {
            x: start_centred(screen.origin.x, screen.size.width, size.width),
            y: start_centred(screen.origin.y, screen.size.height, size.height),
        },
        size,
    }
}

/// A window that fits on a screen is put on it.
pub proof fn law_fitting_window_is_put_on_the_screen(screen: Rect, size: Size)
    requires
        screen.in_range(),
        0 <= size.width <= screen.size.width,
        0 <= size.height <= screen.size.height,
        screen.right() <= LIMIT,
        screen.bottom() <= LIMIT,
    ensures
        screen.encloses(centred(screen, size)),
{
}

/// How far apart two coordinates may be and still count as the same: a tenth
/// of a point.
pub const TOLERANCE: i64 = 25;

pub open spec fn close(a: i64, b: i64) -> bool {
    -TOLERANCE <= a - b <= TOLERANCE
}

fn is_close(a: i64, b: i64) -> (r: bool)
    ensures
        r == close(a, b),
{
    let d: i128 = a as i128 - b as i128;
    -(TOLERANCE as i128) <= d && d <= TOLERANCE as i128
}

impl Size {
    pub open spec fn near(self, other: Size) -> bool {
        close(self.width, other.width) && close(self.height, other.height)
    }

    pub fn same_as(&self, other: &Size) -> (r: bool)
        ensures
            r == self.near(*other),
    {
        is_close(self.width, other.width) && is_close(self.height, other.height)
    }
}

/// The nearest whole point; halves go away from zero.
#[verifier::opaque]
pub open spec fn to_whole(v: int) -> int {
    if v >= 0 {
        (v + 128) / 256 * 256
    } else {
        -((-v + 128) / 256 * 256)
    }
}

pub fn whole(v: i64) -> (r: i64)
    requires
        -4 * LIMIT <= v <= 4 * LIMIT,
    ensures
        r == to_whole(v as int),
        v - 128 <= r <= v + 128,
{
    reveal(to_whole);
    if v >= 0 {
        (v + 128) / 256 * 256
    } else {
        -((-v + 128) / 256 * 256)
    }
}

impl Rect {
    /// Whether two frames are the same for all practical purposes.
    pub open spec fn near(self, other: Rect) -> bool {
        close(self.origin.x, other.origin.x) && close(self.origin.y, other.origin.y)
            && self.size.near(other.size)
    }

    pub fn same_as(&self, other: &Rect) -> (r: bool)
        ensures
            r == self.near(*other),
    {
        is_close(self.origin.x, other.origin.x) && is_close(self.origin.y, other.origin.y)
            && self.size.same_as(&other.size)
    }

    /// A frame that is still in range when its corners are on whole points,
    /// whereby it may grow by a point.
    pub open spec fn can_round(self) -> bool {
        &&& self.in_range()
        &&& self.size.width <= HALF_LIMIT - 256
        &&& self.size.height <= HALF_LIMIT - 256
    }

    /// The frame with its corners on whole points.
    pub open spec fn rounded(self) -> Rect {
        Rect {
            origin: Point {
                x: to_whole(self.origin.x as int) as i64,
                y: to_whole(self.origin.y as int) as i64,
            },
            size: Size {
                width: (to_whole(self.right()) - to_whole(self.origin.x as int)) as i64,
                height: (to_whole(self.bottom()) - to_whole(self.origin.y as int)) as i64,
            },
        }
    }

    pub fn round(&self) -> (r: Rect)
        requires
            self.can_round(),
        ensures
            r == self.rounded(),
            r.in_range(),
    {
        let (x, width): (i64, i64) = round_stretch(self.origin.x, self.size.width);
        let (y, height): (i64, i64) = round_stretch(self.origin.y, self.size.height);
        Rect { origin: Point { x, y }, size: Size { width, height } }
    }
}

/// Rounding keeps the order, and keeps within the bound.
proof fn lemma_whole(a: int, b: int)
    requires
        a <= b,
    ensures
        to_whole(a) <= to_whole(b),
        -LIMIT <= a <= LIMIT ==> -LIMIT <= to_whole(a) <= LIMIT,
{
    reveal(to_whole);
}

/// Rounds both ends of a stretch: where it starts and how long it is.
fn round_stretch(start: i64, length: i64) -> (r: (i64, i64))
    requires
        -LIMIT <= start <= LIMIT,
        0 <= length <= HALF_LIMIT - 256,
    ensures
        r.0 == to_whole(start as int),
        r.1 == to_whole(start + length) - to_whole(start as int),
        -LIMIT <= r.0 <= LIMIT,
        0 <= r.1 <= HALF_LIMIT,
{
    proof {
        lemma_whole(start as int, start + length);
    }
    let first: i64 = whole(start);
    let last: i64 = whole(start + length);
    (first, last - first)
}

/// A rectangle holds the points from its origin to its far corner, edges
/// included; its middle among them.
pub proof fn law_rectangle_holds_its_corners_and_middle(r: Rect, p: Point)
    requires
        r.in_range(),
    ensures
        r.holds(p) <==> r.origin.x <= p.x <= r.origin.x + r.size.width && r.origin.y <= p.y
            <= r.origin.y + r.size.height,
        r.holds(r.middle()),
        2 * (r.middle().x - r.origin.x) <= r.size.width <= 2 * (r.middle().x - r.origin.x) + 1,
        2 * (r.middle().y - r.origin.y) <= r.size.height <= 2 * (r.middle().y - r.origin.y) + 1,
{
}

/// One rectangle encloses another exactly if it holds both its corners.
pub proof fn law_enclosing_is_holding_both_corners(a: Rect, b: Rect)
    requires
        a.in_range(),
        b.in_range(),
    ensures
        a.encloses(b) <==> a.holds(b.origin) && a.holds(
            (Point {
                x: (b.origin.x + b.size.width) as i64,
                y: (b.origin.y + b.size.height) as i64,
            }),
        ),
        a.encloses(a),
{
}

/// The gap between two stretches is the distance from the end of the one to
/// the start of the other; stretches with a point in common have none.
pub proof fn law_gap_is_the_least_distance(a: int, b: int, c: int, d: int, x: int)
    requires
        a <= b,
        c <= d,
    ensures
        interval_gap_spec(a, b, c, d) == interval_gap_spec(c, d, a, b),
        b <= c ==> interval_gap_spec(a, b, c, d) == c - b,
        a <= x <= b && c <= x <= d ==> interval_gap_spec(a, b, c, d) == 0,
{
}

/// A point is at no distance from a rectangle exactly if the rectangle holds
/// it, and no point of a rectangle is nearer to another than the distance
/// says.
pub proof fn law_distance_to_a_rectangle_is_to_its_nearest_point(r: Rect, p: Point, q: Point)
    requires
        r.in_range(),
    ensures
        distance_sq_to(r, p) == 0 <==> r.holds(p),
        r.holds(q) ==> distance_sq_to(r, p) <= (p.x - q.x) * (p.x - q.x) + (p.y - q.y) * (p.y
            - q.y),
{
    let dx = interval_gap_spec(r.origin.x as int, r.right(), p.x as int, p.x as int);
    let dy = interval_gap_spec(r.origin.y as int, r.bottom(), p.y as int, p.y as int);
    assert(dx * dx >= 0 && (dx * dx == 0 <==> dx == 0)) by (nonlinear_arith);
    assert(dy * dy >= 0 && (dy * dy == 0 <==> dy == 0)) by (nonlinear_arith);
    if r.holds(q) {
        let ex = p.x - q.x;
        let ey = p.y - q.y;
        assert(dx * dx <= ex * ex) by (nonlinear_arith)
            requires
                0 <= dx,
                dx <= ex || dx <= -ex,
        ;
        assert(dy * dy <= ey * ey) by (nonlinear_arith)
            requires
                0 <= dy,
                dy <= ey || dy <= -ey,
        ;
    }
}

/// Two rectangles share as much either way; one that encloses another shares
/// all of it; two with a line between them share nothing.
pub proof fn law_shared_area(a: Rect, b: Rect)
    requires
        a.in_range(),
        b.in_range(),
    ensures
        overlap(a, b) == overlap(b, a),
        a.encloses(b) ==> overlap(a, b) == b.size.width * b.size.height,
        a.origin.x + a.size.width <= b.origin.x || a.origin.y + a.size.height <= b.origin.y
            ==> overlap(a, b) == 0,
        b.area_spec() == b.size.width * b.size.height,
{
    let w = common_length(a.origin.x as int, a.right(), b.origin.x as int, b.right());
    let h = common_length(a.origin.y as int, a.bottom(), b.origin.y as int, b.bottom());
    assert(w == common_length(b.origin.x as int, b.right(), a.origin.x as int, a.right()));
    assert(h == common_length(b.origin.y as int, b.bottom(), a.origin.y as int, a.bottom()));
    assert(w == 0 || h == 0 ==> w * h == 0) by (nonlinear_arith);
}

/// What two stretches share runs from the later start to the earlier end.
pub proof fn law_common_length_of_stretches(a: int, b: int, c: int, d: int)
    requires
        a <= b,
        c <= d,
    ensures
        common_length(a, b, c, d) == common_length(c, d, a, b),
        a <= c && d <= b ==> common_length(a, b, c, d) == d - c,
        a <= c <= b <= d ==> common_length(a, b, c, d) == b - c,
        b <= c ==> common_length(a, b, c, d) == 0,
{
}

/// A window put in the middle of a screen keeps its size; where it fits, what
/// is left over is shared between both sides, but for one step.
pub proof fn law_centred_window_is_in_the_middle(screen: Rect, size: Size)
    requires
        screen.is_screen(),
        0 <= size.width <= screen.size.width,
        0 <= size.height <= screen.size.height,
    ensures
        centred(screen, size).size == size,
        ({
            let r = centred(screen, size);
            let left = r.origin.x - screen.origin.x;
            let right = screen.origin.x + screen.size.width - (r.origin.x + size.width);
            let above = r.origin.y - screen.origin.y;
            let below = screen.origin.y + screen.size.height - (r.origin.y + size.height);
            &&& 0 <= left && 0 <= right && -1 <= left - right <= 1
            &&& 0 <= above && 0 <= below && -1 <= above - below <= 1
        }),
{
}

/// A window too large for a screen ends where the screen ends.
pub proof fn law_oversized_window_ends_with_the_screen(screen: Rect, size: Size)
    requires
        screen.is_screen(),
        screen.size.width <= size.width <= HALF_LIMIT,
        screen.size.height <= size.height <= HALF_LIMIT,
    ensures
        centred(screen, size).origin.x + size.width == screen.origin.x + screen.size.width,
        centred(screen, size).origin.y + size.height == screen.origin.y + screen.size.height,
{
}

/// Two frames are taken for the same if no coordinate of one is further than
/// a tenth of a point from the other's.
pub proof fn law_near_frames(a: Rect, b: Rect)
    ensures
        a.near(a),
        a.near(b) == b.near(a),
        a.near(b) <==> {
            &&& 10 * (a.origin.x - b.origin.x) <= 256 && 10 * (b.origin.x - a.origin.x) <= 256
            &&& 10 * (a.origin.y - b.origin.y) <= 256 && 10 * (b.origin.y - a.origin.y) <= 256
            &&& 10 * (a.size.width - b.size.width) <= 256 && 10 * (b.size.width - a.size.width)
                <= 256
            &&& 10 * (a.size.height - b.size.height) <= 256 && 10 * (b.size.height - a.size.height)
                <= 256
        },
{
}

/// A rounded coordinate is a whole point, and none is nearer.
pub proof fn law_rounding_goes_to_the_nearest_point(v: int)
    ensures
        to_whole(v) % 256 == 0,
        -128 <= to_whole(v) - v <= 128,
        v % 256 == 0 ==> to_whole(v) == v,
        to_whole(-v) == -to_whole(v),
{
    reveal(to_whole);
}

} // verus!
