//! Rectangles and the quadrant grid.
//!
//! Lengths that enter the library are whole pixels. Halving a whole number of
//! pixels can leave half a pixel, so every coordinate that leaves the library
//! counts half pixels: a `Rect` field holds twice the length it stands for.
//! With that unit the grid is exact for every window size.

use vstd::prelude::*;

verus! {

/// Inner size of the host window, in whole pixels.
#[derive(Clone, Copy, Debug, PartialEq, Eq, Structural)]
pub struct WindowSize {
    pub width: u32,
    pub height: u32,
}

/// An axis-aligned rectangle. All four fields count half pixels.
///
/// Width and height may be negative: a sidebar wider than the window yields
/// quadrants of negative width, and nothing clamps them.
#[derive(Clone, Copy, Debug, PartialEq, Eq, Structural)]
pub struct Rect {
    pub x: i64,
    pub y: i64,
    pub width: i64,
    pub height: i64,
}

impl Rect {
    /// Whether the point `(px, py)`, in half pixels, lies inside the rectangle.
    /// The left and top edges belong to it, the right and bottom edges do not.
    pub open spec fn contains(self, px: int, py: int) -> bool {
        &&& self.x <= px < self.x + self.width
        &&& self.y <= py < self.y + self.height
    }

    /// Whether two rectangles have the same width and height.
    pub open spec fn same_size(self, other: Rect) -> bool {
        self.width == other.width && self.height == other.height
    }

    /// 1 if the point lies inside the rectangle, 0 if not.
    pub open spec fn hits(self, px: int, py: int) -> int {
        if self.contains(px, py) {
            1
        } else {
            0
        }
    }

    /// The parking place of a hidden quadrant pane.
    pub fn hidden() -> (r: Rect)
        ensures
            r == hidden_rect(),
    {
        Rect { x: -2000, y: -2000, width: 0, height: 0 }
    }

    /// The place of a quadrant pane that was created and not yet laid out.
    pub fn placeholder() -> (r: Rect)
        ensures
            r == placeholder_rect(),
    {
        Rect { x: 0, y: 0, width: 200, height: 200 }
    }
}

/// Where a quadrant pane is parked while the window is fullscreen: off screen,
/// with no extent.
pub open spec fn hidden_rect() -> Rect {
    Rect { x: -2000i64, y: -2000i64, width: 0, height: 0 }
}

/// Where a quadrant pane is created before the grid is first applied.
pub open spec fn placeholder_rect() -> Rect {
    Rect { x: 0, y: 0, width: 200, height: 200 }
}

/// The content area: the window without the sidebar strip at its left.
pub open spec fn content_area(window_width: u32, window_height: u32, sidebar_width: u32) -> Rect {
    Rect {
        x: (2 * sidebar_width) as i64,
        y: 0,
        width: (2 * (window_width - sidebar_width)) as i64,
        height: (2 * window_height) as i64,
    }
}

/// The four quadrants in the order top-left, top-right, bottom-left,
/// bottom-right. Each is half the content width wide and half the window
/// height high; in half pixels those are `window_width - sidebar_width` and
/// `window_height`.
pub open spec fn quadrants(window_width: u32, window_height: u32, sidebar_width: u32) -> Seq<Rect> {
    let half_width = (window_width - sidebar_width) as i64;
    let half_height = window_height as i64;
    let left = (2 * sidebar_width) as i64;
    let middle = (window_width + sidebar_width) as i64;
    seq![
        Rect { x: left, y: 0, width: half_width, height: half_height },
        Rect { x: middle, y: 0, width: half_width, height: half_height },
        Rect { x: left, y: half_height, width: half_width, height: half_height },
        Rect { x: middle, y: half_height, width: half_width, height: half_height },
    ]
}

/// Computes the quadrant grid for a window and a sidebar width, all in whole
/// pixels. Nothing is clamped: a sidebar wider than the window gives negative
/// widths.
pub fn compute_quadrants(window_width: u32, window_height: u32, sidebar_width: u32) -> (grid: [Rect; 4])
    ensures
        grid@ == quadrants(window_width, window_height, sidebar_width),
{
    let sidebar: i64 = sidebar_width as i64;
    let half_width: i64 = window_width as i64 - sidebar;
    let half_height: i64 = window_height as i64;
    let left: i64 = 2 * sidebar;
    let middle: i64 = left + half_width;
    let grid = [
        Rect { x: left, y: 0, width: half_width, height: half_height },
        Rect { x: middle, y: 0, width: half_width, height: half_height },
        Rect { x: left, y: half_height, width: half_width, height: half_height },
        Rect { x: middle, y: half_height, width: half_width, height: half_height },
    ];
    assert(grid@ =~= quadrants(window_width, window_height, sidebar_width));
    grid
}

/// How many of the four quadrants of `grid` hold the point `(px, py)`.
pub open spec fn cover_count(grid: Seq<Rect>, px: int, py: int) -> int {
    grid[0].hits(px, py) + grid[1].hits(px, py) + grid[2].hits(px, py) + grid[3].hits(px, py)
}

/// The four quadrants tile the content area: they all have the same size,
/// every point of the content area lies in exactly one of them, and every
/// other point lies in none. So there is no gap, no overlap, and nothing
/// sticks out.
///
/// This holds for every window and every sidebar. Where the sidebar is wider
/// than the window the content area has negative width and holds no point,
/// and neither does any quadrant.
pub proof fn lemma_quadrants_tile_content_area(window_width: u32, window_height: u32, sidebar_width: u32)
    ensures
        quadrants(window_width, window_height, sidebar_width).len() == 4,
        forall|i: int|
            0 <= i < 4 ==> (#[trigger] quadrants(window_width, window_height, sidebar_width)[i]).same_size(
                quadrants(window_width, window_height, sidebar_width)[0],
            ),
        forall|px: int, py: int|
            #[trigger] cover_count(quadrants(window_width, window_height, sidebar_width), px, py) == content_area(
                window_width,
                window_height,
                sidebar_width,
            ).hits(px, py),
{
}

} // verus!
