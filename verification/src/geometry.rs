//! Screen rectangles and window placements.

use vstd::prelude::*;

verus! {

/// A screen rectangle by its edges, in pixels. The right and bottom edges lie
/// just outside.
#[derive(Debug, Clone, Copy, PartialEq, Eq, Structural)]
pub struct Rect {
    pub left: i32,
    pub top: i32,
    pub right: i32,
    pub bottom: i32,
}

/// A window's position and size, as the window manager takes them.
#[derive(Debug, Clone, Copy, PartialEq, Eq, Structural)]
pub struct Placement {
    pub x: i32,
    pub y: i32,
    pub width: i32,
    pub height: i32,
}

impl Rect {
    /// The horizontal extent; negative where the edges are crossed.
    pub open spec fn spec_width(self) -> int {
        self.right - self.left
    }

    /// The vertical extent; negative where the edges are crossed.
    pub open spec fn spec_height(self) -> int {
        self.bottom - self.top
    }

    /// Both extents are representable.
    pub open spec fn spec_measurable(self) -> bool {
        &&& i32::MIN <= self.spec_width() <= i32::MAX
        &&& i32::MIN <= self.spec_height() <= i32::MAX
    }

    /// Whether width and height are representable.
    pub fn measurable(&self) -> (res: bool)
        ensures
            res == self.spec_measurable(),
    {
        let width: i64 = self.right as i64 - self.left as i64;
        let height: i64 = self.bottom as i64 - self.top as i64;
        -0x8000_0000 <= width && width <= 0x7FFF_FFFF && -0x8000_0000 <= height && height
            <= 0x7FFF_FFFF
    }

    pub fn width(&self) -> (res: i32)
        requires
            self.spec_measurable(),
        ensures
            res == self.spec_width(),
    {
        self.right - self.left
    }

    pub fn height(&self) -> (res: i32)
        requires
            self.spec_measurable(),
        ensures
            res == self.spec_height(),
    {
        self.bottom - self.top
    }

    /// The placement that makes a window cover this rectangle.
    pub open spec fn spec_placement(self) -> Placement {
        Placement {
            x: self.left,
            y: self.top,
            width: self.spec_width() as i32,
            height: self.spec_height() as i32,
        }
    }

    /// The placement that makes a window cover this rectangle.
    pub fn placement(&self) -> (res: Placement)
        requires
            self.spec_measurable(),
        ensures
            res == self.spec_placement(),
    {
        Placement { x: self.left, y: self.top, width: self.width(), height: self.height() }
    }
}

impl Placement {
    /// `r` is the rectangle that a window so placed covers.
    pub open spec fn covers(self, r: Rect) -> bool {
        &&& r.left == self.x
        &&& r.top == self.y
        &&& r.right == self.x + self.width
        &&& r.bottom == self.y + self.height
    }
}

/// The rectangle of a primary monitor of the given size.
pub fn primary_monitor_rect(screen_width: i32, screen_height: i32) -> (res: Rect)
    ensures
        res == (Rect { left: 0, top: 0, right: screen_width, bottom: screen_height }),
{
    Rect { left: 0, top: 0, right: screen_width, bottom: screen_height }
}

/// A window placed at a rectangle covers that rectangle, edge for edge.
pub proof fn placement_covers_the_rect(r: Rect)
    requires
        r.spec_measurable(),
    ensures
        r.spec_placement().covers(r),
{
}

/// A rectangle can be measured exactly where a window can be placed so that it
/// covers it.
pub proof fn measurable_iff_coverable(r: Rect)
    ensures
        r.spec_measurable() <==> exists|p: Placement| #[trigger] p.covers(r),
{
    if r.spec_measurable() {
        assert(r.spec_placement().covers(r));
    }
}

/// Whether a rectangle can be measured is whether both its extents fit.
pub proof fn measuring_fits(r: Rect, res: bool)
    requires
        call_ensures(Rect::measurable, (&r,), res),
    ensures
        res <==> {
            &&& r.left + i32::MIN <= r.right <= r.left + i32::MAX
            &&& r.top + i32::MIN <= r.bottom <= r.top + i32::MAX
        },
{
}

/// Width and height lead from one edge to the other.
pub proof fn extents_lead_across(r: Rect, width: i32, height: i32)
    requires
        call_ensures(Rect::width, (&r,), width),
        call_ensures(Rect::height, (&r,), height),
        r.spec_measurable(),
    ensures
        r.left + width == r.right,
        r.top + height == r.bottom,
{
}

/// A window placed over a rectangle starts at its corner and ends at the opposite
/// one.
pub proof fn a_placement_spans_the_rect(r: Rect, res: Placement)
    requires
        call_ensures(Rect::placement, (&r,), res),
        r.spec_measurable(),
    ensures
        res.x == r.left,
        res.y == r.top,
        res.x + res.width == r.right,
        res.y + res.height == r.bottom,
{
}

/// The primary monitor starts at the origin and is as large as the screen.
pub proof fn the_monitor_is_the_screen(width: i32, height: i32, res: Rect)
    requires
        call_ensures(primary_monitor_rect, (width, height), res),
    ensures
        res.left == 0,
        res.top == 0,
        res.right == width,
        res.bottom == height,
{
}

/// A rectangle whose extents fit can be measured and placed.
pub proof fn any_fitting_rect_can_be_placed(r: Rect)
    requires
        i32::MIN <= r.right - r.left <= i32::MAX,
        i32::MIN <= r.bottom - r.top <= i32::MAX,
    ensures
        call_requires(Rect::width, (&r,)),
        call_requires(Rect::height, (&r,)),
        call_requires(Rect::placement, (&r,)),
{
}

} // verus!
