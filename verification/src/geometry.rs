//! Rectangles in physical pixels, and the correction of a crop rectangle to
//! the bounds of what is captured.

use vstd::prelude::*;

verus! {

/// Rectangle in physical pixels. A width or height of zero denotes "no region".
#[derive(Debug, Clone, Copy, PartialEq, Eq, Structural)]
pub struct Rect {
    pub x: i32,
    pub y: i32,
    pub width: u32,
    pub height: u32,
}

/// The larger of two integers.
pub open spec fn max_int(a: int, b: int) -> int {
    if a >= b { a } else { b }
}

/// The smaller of two integers.
pub open spec fn min_int(a: int, b: int) -> int {
    if a <= b { a } else { b }
}

/// Where a span that starts at `origin` begins once it is cut to `[0, bound)`:
/// a negative origin moves to zero.
pub open spec fn clamped_origin(origin: int) -> int {
    max_int(origin, 0)
}

/// How long a span `[origin, origin + extent)` is once it is cut to
/// `[0, bound)`: the extent loses what lay before zero, and is cut to the room
/// that is left between the clamped origin and the bound.
pub open spec fn clamped_extent(origin: int, extent: int, bound: int) -> int {
    let start = clamped_origin(origin);
    let kept = max_int(extent - (start - origin), 0);
    let room = max_int(bound - start, 0);
    min_int(kept, room)
}

impl Rect {
    /// One past the rightmost column, as a mathematical integer.
    pub open spec fn spec_right(&self) -> int {
        self.x + self.width
    }

    /// One past the lowest row, as a mathematical integer.
    pub open spec fn spec_bottom(&self) -> int {
        self.y + self.height
    }

    /// The point lies inside the rectangle: edges on the left and top belong
    /// to it, edges on the right and bottom do not.
    pub open spec fn spec_contains(&self, x: int, y: int) -> bool {
        self.x <= x < self.spec_right() && self.y <= y < self.spec_bottom()
    }

    /// The two rectangles overlap along both axes.
    pub open spec fn spec_intersects(&self, other: &Rect) -> bool {
        self.x < other.spec_right() && self.spec_right() > other.x
            && self.y < other.spec_bottom() && self.spec_bottom() > other.y
    }

    /// The rectangle has no pixel.
    pub open spec fn spec_is_empty(&self) -> bool {
        self.width == 0 || self.height == 0
    }

    /// The rectangle cut to a target of the given size, whose top-left pixel
    /// is the origin.
    pub open spec fn spec_clamp_to(&self, width: u32, height: u32) -> Rect {
        Rect {
            x: clamped_origin(self.x as int) as i32,
            y: clamped_origin(self.y as int) as i32,
            width: clamped_extent(self.x as int, self.width as int, width as int) as u32,
            height: clamped_extent(self.y as int, self.height as int, height as int) as u32,
        }
    }

    pub fn new(x: i32, y: i32, width: u32, height: u32) -> (r: Rect)
        ensures
            r == (Rect { x, y, width, height }),
    {
        Rect { x, y, width, height }
    }

    /// The right edge. The edge has to be a coordinate itself.
    pub fn right(&self) -> (r: i32)
        requires
            self.spec_right() <= i32::MAX,
        ensures
            r == self.spec_right(),
    {
        let r: i64 = self.x as i64 + self.width as i64;
        r as i32
    }

    /// The bottom edge. The edge has to be a coordinate itself.
    pub fn bottom(&self) -> (r: i32)
        requires
            self.spec_bottom() <= i32::MAX,
        ensures
            r == self.spec_bottom(),
    {
        let r: i64 = self.y as i64 + self.height as i64;
        r as i32
    }

    /// Whether the point lies inside the rectangle.
    pub fn contains(&self, x: i32, y: i32) -> (r: bool)
        ensures
            r == self.spec_contains(x as int, y as int),
    {
        let right: i64 = self.x as i64 + self.width as i64;
        let bottom: i64 = self.y as i64 + self.height as i64;
        x >= self.x && (x as i64) < right && y >= self.y && (y as i64) < bottom
    }

    /// Whether the two rectangles overlap.
    pub fn intersects(&self, other: &Rect) -> (r: bool)
        ensures
            r == self.spec_intersects(other),
    {
        let right: i64 = self.x as i64 + self.width as i64;
        let bottom: i64 = self.y as i64 + self.height as i64;
        let other_right: i64 = other.x as i64 + other.width as i64;
        let other_bottom: i64 = other.y as i64 + other.height as i64;
        (self.x as i64) < other_right && right > other.x as i64
            && (self.y as i64) < other_bottom && bottom > other.y as i64
    }

    /// Whether the rectangle has no pixel.
    pub fn is_empty(&self) -> (r: bool)
        ensures
            r == self.spec_is_empty(),
    {
        self.width == 0 || self.height == 0
    }

    /// Cuts a crop rectangle, given in the target's own pixel space, to a
    /// target of `width` by `height` pixels. A negative origin moves to zero
    /// and the extent shrinks by as much; what reaches past the target is cut.
    pub fn clamp_to(&self, width: u32, height: u32) -> (r: Rect)
        ensures
            r == self.spec_clamp_to(width, height),
            r.x >= 0,
            r.y >= 0,
            r.width <= self.width,
            r.height <= self.height,
            r.x + r.width <= max_int(width as int, r.x as int),
            r.y + r.height <= max_int(height as int, r.y as int),
    {
        let x: i32 = if self.x < 0 { 0 } else { self.x };
        let y: i32 = if self.y < 0 { 0 } else { self.y };
        let w: u32 = clamp_extent(self.x, self.width, width);
        let h: u32 = clamp_extent(self.y, self.height, height);
        Rect { x, y, width: w, height: h }
    }
}

impl Default for Rect {
    fn default() -> (r: Rect)
        ensures
            r == (Rect { x: 0, y: 0, width: 0, height: 0 }),
    {
        Rect { x: 0, y: 0, width: 0, height: 0 }
    }
}

/// The extent of one axis of a crop rectangle after it is cut to `[0, bound)`.
pub fn clamp_extent(origin: i32, extent: u32, bound: u32) -> (r: u32)
    ensures
        r == clamped_extent(origin as int, extent as int, bound as int),
        r <= extent,
        clamped_origin(origin as int) + r <= max_int(bound as int, clamped_origin(origin as int)),
{
    clamp_span(origin as i64, extent, bound)
}

/// The same for an origin that is the difference of two coordinates.
pub fn clamp_span(origin: i64, extent: u32, bound: u32) -> (r: u32)
    requires
        -0x1_0000_0000 <= origin <= 0x1_0000_0000,
    ensures
        r == clamped_extent(origin as int, extent as int, bound as int),
        r <= extent,
        clamped_origin(origin as int) + r <= max_int(bound as int, clamped_origin(origin as int)),
{
    let start: i64 = if origin < 0 { 0 } else { origin };
    let lost: i64 = start - origin;
    let kept: i64 = if extent as i64 > lost { extent as i64 - lost } else { 0 };
    let room: i64 = if bound as i64 > start { bound as i64 - start } else { 0 };
    let r: i64 = if kept <= room { kept } else { room };
    r as u32
}

/// A crop rectangle cut to its target covers exactly the pixels that lie both
/// in the rectangle and on the target.
pub proof fn lemma_clamp_is_intersection(rect: Rect, width: u32, height: u32, x: int, y: int)
    ensures
        rect.spec_clamp_to(width, height).spec_contains(x, y) <==> (rect.spec_contains(x, y) && 0
            <= x < width && 0 <= y < height),
{
}

/// Crop correction for a rectangle that starts before the target: the
/// corrected origin is not negative, each extent is what was asked for less
/// what lay before the target (never below zero), cut to what the target has
/// left past the corrected origin.
pub proof fn lemma_clamp_negative_origin(rect: Rect, width: u32, height: u32)
    requires
        rect.x < 0 || rect.y < 0,
    ensures
        ({
            let c = rect.spec_clamp_to(width, height);
            let lost_x = if rect.x < 0 { -rect.x } else { 0 };
            let lost_y = if rect.y < 0 { -rect.y } else { 0 };
            &&& c.x >= 0
            &&& c.y >= 0
            &&& c.x == rect.x + lost_x
            &&& c.y == rect.y + lost_y
            &&& c.width == min_int(max_int(rect.width - lost_x, 0), max_int(width - c.x, 0))
            &&& c.height == min_int(max_int(rect.height - lost_y, 0), max_int(height - c.y, 0))
            &&& c.x <= width ==> c.x + c.width <= width
            &&& c.y <= height ==> c.y + c.height <= height
        }),
{
}

/// Cutting a rectangle that already lies on the target changes nothing.
pub proof fn lemma_clamp_inside_is_identity(rect: Rect, width: u32, height: u32)
    requires
        rect.x >= 0,
        rect.y >= 0,
        rect.spec_right() <= width,
        rect.spec_bottom() <= height,
    ensures
        rect.spec_clamp_to(width, height) == rect,
{
}

} // verus!
