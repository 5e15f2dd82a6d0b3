//! The frame that the overlay paints: a background and a progress bar.

use crate::geometry::Rect;
use vstd::prelude::*;

verus! {

/// Background colour. Colours are written blue, green, red from the high byte.
pub const BACKGROUND_COLOR: u32 = 0x00284040;

/// Colour of the border round the bar.
pub const OUTLINE_COLOR: u32 = 0x00FFFFFF;

/// Colour of the empty bar.
pub const TROUGH_COLOR: u32 = 0x00101010;

/// Colour of the filled part of the bar.
pub const FILL_COLOR: u32 = 0x0080FF80;

/// Height of the bar.
pub const BAR_HEIGHT: i32 = 24;

/// Width of the border round the bar.
pub const OUTLINE_WIDTH: i32 = 2;

/// A rectangle to be filled with a colour.
#[derive(Debug, Clone, Copy, PartialEq, Eq, Structural)]
pub struct Fill {
    pub rect: Rect,
    pub color: u32,
}

/// Where the parts of a frame lie.
#[derive(Debug, Clone, Copy, PartialEq, Eq, Structural)]
pub struct FrameLayout {
    /// The client area as the window reports it.
    pub client: Rect,
    /// Size of the frame.
    pub width: i32,
    pub height: i32,
    /// The empty bar.
    pub bar: Rect,
}

/// The empty bar of a frame: six tenths of the width, centred, three quarters of
/// the way down.
pub open spec fn bar_rect(width: int, height: int) -> Rect {
    let bar_width = width * 6 / 10;
    let x = (width - bar_width) / 2;
    let y = height * 3 / 4;
    Rect {
        left: x as i32,
        top: y as i32,
        right: (x + bar_width) as i32,
        bottom: (y + BAR_HEIGHT) as i32,
    }
}

/// The area has no extent one way or the other.
pub open spec fn is_empty(client: Rect) -> bool {
    client.spec_width() <= 0 || client.spec_height() <= 0
}

/// The area can be measured and, unless it is empty, the bar's arithmetic stays
/// representable.
pub open spec fn frame_fits(client: Rect) -> bool {
    &&& client.spec_measurable()
    &&& is_empty(client) || (client.spec_width() * 6 <= i32::MAX && client.spec_height() * 3
        <= i32::MAX)
}

/// The rectangle that extends `r` by `by` on every side.
pub open spec fn grown(r: Rect, by: int) -> Rect {
    Rect {
        left: (r.left - by) as i32,
        top: (r.top - by) as i32,
        right: (r.right + by) as i32,
        bottom: (r.bottom + by) as i32,
    }
}

/// Whether the frame of this client area can be laid out.
pub fn can_lay_out(client: &Rect) -> (res: bool)
    ensures
        res == frame_fits(*client),
{
    if !client.measurable() {
        return false;
    }
    let width: i64 = client.width() as i64;
    let height: i64 = client.height() as i64;
    width <= 0 || height <= 0 || (width * 6 <= i32::MAX as i64 && height * 3 <= i32::MAX as i64)
}

/// Lays out the frame of a client area; an empty area has none.
pub fn lay_out_frame(client: &Rect) -> (res: Option<FrameLayout>)
    requires
        frame_fits(*client),
    ensures
        is_empty(*client) ==> res is None,
        !is_empty(*client) ==> res == Some(
            FrameLayout {
                client: *client,
                width: client.spec_width() as i32,
                height: client.spec_height() as i32,
                bar: bar_rect(client.spec_width(), client.spec_height()),
            },
        ),
{
    let width: i32 = client.width();
    let height: i32 = client.height();
    if width <= 0 || height <= 0 {
        return None;
    }
    let bar_width: i32 = width * 6 / 10;
    let x: i32 = (width - bar_width) / 2;
    let y: i32 = height * 3 / 4;
    let bar = Rect { left: x, top: y, right: x + bar_width, bottom: y + BAR_HEIGHT };
    Some(FrameLayout { client: *client, width, height, bar })
}

impl FrameLayout {
    /// A layout that `lay_out_frame` gives.
    pub open spec fn well_formed(self) -> bool {
        &&& frame_fits(self.client)
        &&& self.width == self.client.spec_width()
        &&& self.height == self.client.spec_height()
        &&& self.width > 0
        &&& self.height > 0
        &&& self.bar == bar_rect(self.width as int, self.height as int)
    }

    /// The width of the empty bar.
    pub fn bar_width(&self) -> (res: i32)
        requires
            self.well_formed(),
        ensures
            res == self.width * 6 / 10,
    {
        self.bar.right - self.bar.left
    }

    /// The fills of a frame, in the order in which they are painted, with
    /// `filled` pixels of the bar filled.
    pub fn fills(&self, filled: i32) -> (res: Vec<Fill>)
        requires
            self.well_formed(),
            i32::MIN <= self.bar.left + filled <= i32::MAX,
        ensures
            res@ == seq![
                Fill { rect: self.client, color: BACKGROUND_COLOR },
                Fill { rect: grown(self.bar, OUTLINE_WIDTH as int), color: OUTLINE_COLOR },
                Fill { rect: self.bar, color: TROUGH_COLOR },
                Fill {
                    rect: Rect { right: (self.bar.left + filled) as i32, ..self.bar },
                    color: FILL_COLOR,
                },
            ],
    {
        let bar = self.bar;
        let outline = Rect {
            left: bar.left - OUTLINE_WIDTH,
            top: bar.top - OUTLINE_WIDTH,
            right: bar.right + OUTLINE_WIDTH,
            bottom: bar.bottom + OUTLINE_WIDTH,
        };
        let fill = Rect {
            left: bar.left,
            top: bar.top,
            right: bar.left + filled,
            bottom: bar.bottom,
        };
        let mut out: Vec<Fill> = Vec::new();
        out.push(Fill { rect: self.client, color: BACKGROUND_COLOR });
        out.push(Fill { rect: outline, color: OUTLINE_COLOR });
        out.push(Fill { rect: bar, color: TROUGH_COLOR });
        out.push(Fill { rect: fill, color: FILL_COLOR });
        out
    }
}

/// The bar lies within the width of the frame, its margins left and right differ
/// by at most one pixel, and it starts three quarters of the way down.
pub proof fn bar_is_centred_low(layout: FrameLayout)
    requires
        layout.well_formed(),
    ensures
        0 <= layout.bar.left <= layout.bar.right <= layout.width,
        0 <= (layout.width - layout.bar.right) - layout.bar.left <= 1,
        layout.bar.spec_width() == layout.width * 6 / 10,
        layout.bar.spec_height() == BAR_HEIGHT,
        4 * layout.bar.top <= 3 * layout.height < 4 * (layout.bar.top + 1),
{
}

/// A fill between none and all of the bar's width stays inside the bar, and the
/// whole width fills exactly the bar.
pub proof fn fill_stays_in_bar(layout: FrameLayout, filled: int)
    requires
        layout.well_formed(),
        0 <= filled <= layout.bar.spec_width(),
    ensures
        layout.bar.left <= layout.bar.left + filled <= layout.bar.right,
        filled == layout.bar.spec_width() ==> layout.bar.left + filled == layout.bar.right,
{
}

/// Every area of ordinary size can be laid out, and so can every empty one that
/// can be measured.
pub proof fn ordinary_areas_can_be_laid_out(client: Rect, res: bool)
    requires
        call_ensures(can_lay_out, (&client,), res),
        i32::MIN <= client.right - client.left <= i32::MAX,
        i32::MIN <= client.bottom - client.top <= i32::MAX,
    ensures
        client.right - client.left <= 357_913_941 && client.bottom - client.top <= 715_827_882
            ==> res,
        client.right <= client.left || client.bottom <= client.top ==> res,
        res ==> frame_fits(client),
{
}

/// A frame is laid out exactly for an area with an extent both ways. It is as
/// large as the area; its bar is six tenths as wide, in the middle up to a pixel,
/// three quarters of the way down and twenty-four pixels high.
pub proof fn a_frame_is_laid_out(client: Rect, res: Option<FrameLayout>)
    requires
        call_ensures(lay_out_frame, (&client,), res),
        frame_fits(client),
    ensures
        res is Some <==> client.left < client.right && client.top < client.bottom,
        res matches Some(layout) ==> {
            let before = layout.bar.left;
            let across = layout.bar.right - layout.bar.left;
            let behind = layout.width - layout.bar.right;
            &&& layout.client == client
            &&& client.left + layout.width == client.right
            &&& client.top + layout.height == client.bottom
            &&& 10 * across <= 6 * layout.width < 10 * (across + 1)
            &&& 0 <= before <= behind <= before + 1
            &&& 4 * layout.bar.top <= 3 * layout.height < 4 * (layout.bar.top + 1)
            &&& layout.bar.bottom - layout.bar.top == 24
            &&& layout.well_formed()
        },
{
}

/// The width of the bar leads from its left edge to its right one.
pub proof fn the_bar_width_leads_across(layout: FrameLayout, res: i32)
    requires
        call_ensures(FrameLayout::bar_width, (&layout,), res),
        layout.well_formed(),
    ensures
        layout.bar.left + res == layout.bar.right,
{
}

/// A frame is painted from the back to the front: the whole area, a border two
/// pixels round the bar, the empty bar, and on it so many pixels from its left
/// edge.
pub proof fn a_frame_is_painted_back_to_front(layout: FrameLayout, filled: i32, res: Vec<Fill>)
    requires
        call_ensures(FrameLayout::fills, (&layout, filled), res),
        layout.well_formed(),
        i32::MIN <= layout.bar.left + filled <= i32::MAX,
    ensures
        res@.len() == 4,
        res@[0].rect == layout.client,
        res@[0].color == 0x00284040,
        res@[1].rect.left == layout.bar.left - 2,
        res@[1].rect.top == layout.bar.top - 2,
        res@[1].rect.right == layout.bar.right + 2,
        res@[1].rect.bottom == layout.bar.bottom + 2,
        res@[1].color == 0x00FFFFFF,
        res@[2].rect == layout.bar,
        res@[2].color == 0x00101010,
        res@[3].rect.left == layout.bar.left,
        res@[3].rect.top == layout.bar.top,
        res@[3].rect.right == layout.bar.left + filled,
        res@[3].rect.bottom == layout.bar.bottom,
        res@[3].color == 0x0080FF80,
{
}

/// An area that can be laid out is, and its frame can be painted with any number
/// of pixels of its bar filled.
pub proof fn any_ordinary_frame_can_be_painted(client: Rect, layout: FrameLayout, filled: i32)
    requires
        i32::MIN <= client.right - client.left <= i32::MAX,
        i32::MIN <= client.bottom - client.top <= i32::MAX,
        client.right - client.left <= 357_913_941,
        client.bottom - client.top <= 715_827_882,
        call_ensures(lay_out_frame, (&client,), Some(layout)),
        0 <= filled <= layout.bar.right - layout.bar.left,
    ensures
        call_requires(lay_out_frame, (&client,)),
        call_requires(FrameLayout::bar_width, (&layout,)),
        call_requires(FrameLayout::fills, (&layout, filled)),
{
    if is_empty(client) {
        assert(false);
    }
}

} // verus!
