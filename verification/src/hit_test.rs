//! Which part of a window with a custom frame lies under a point.

use crate::param::Point;
use vstd::prelude::*;

verus! {

/// Width of the band along the left edge that resizes the window.
pub const LEFTEXTENDWIDTH: i32 = 8;

/// Width of the band along the right edge that resizes the window.
pub const RIGHTEXTENDWIDTH: i32 = 8;

/// Height of the band along the bottom edge that resizes the window.
pub const BOTTOMEXTENDWIDTH: i32 = 20;

/// Height of the band along the top edge: caption and resize border.
pub const TOPEXTENDWIDTH: i32 = 27;

/// A rectangle, by its edges.
#[derive(Clone, Copy, Debug, PartialEq, Eq, Structural)]
pub struct Rect {
    pub left: i32,
    pub top: i32,
    pub right: i32,
    pub bottom: i32,
}

impl Rect {
    /// The distance from the left edge to the right edge.
    pub fn width(&self) -> (width: i32)
        requires
            i32::MIN <= self.right - self.left <= i32::MAX,
        ensures
            width == self.right - self.left,
    {
        self.right - self.left
    }

    /// The distance from the top edge to the bottom edge.
    pub fn height(&self) -> (height: i32)
        requires
            i32::MIN <= self.bottom - self.top <= i32::MAX,
        ensures
            height == self.bottom - self.top,
    {
        self.bottom - self.top
    }
}

/// A part of a window, as a hit test names it.
#[derive(Clone, Copy, Debug, PartialEq, Eq, Structural)]
pub enum WmNchittest {
    NoWhere,
    Caption,
    Left,
    Right,
    Top,
    TopLeft,
    TopRight,
    Bottom,
    BottomLeft,
    BottomRight,
}

impl Default for WmNchittest {
    fn default() -> (part: Self)
        ensures
            part == WmNchittest::NoWhere,
    {
        WmNchittest::NoWhere
    }
}

impl WmNchittest {
    /// The number by which the system knows the part.
    pub open spec fn spec_code(self) -> isize {
        match self {
            WmNchittest::NoWhere => 0,
            WmNchittest::Caption => 2,
            WmNchittest::Left => 10,
            WmNchittest::Right => 11,
            WmNchittest::Top => 12,
            WmNchittest::TopLeft => 13,
            WmNchittest::TopRight => 14,
            WmNchittest::Bottom => 15,
            WmNchittest::BottomLeft => 16,
            WmNchittest::BottomRight => 17,
        }
    }

    /// The number by which the system knows the part.
    #[verifier::when_used_as_spec(spec_code)]
    pub fn code(self) -> (code: isize)
        ensures
            code == self.spec_code(),
    {
        match self {
            WmNchittest::NoWhere => 0,
            WmNchittest::Caption => 2,
            WmNchittest::Left => 10,
            WmNchittest::Right => 11,
            WmNchittest::Top => 12,
            WmNchittest::TopLeft => 13,
            WmNchittest::TopRight => 14,
            WmNchittest::Bottom => 15,
            WmNchittest::BottomLeft => 16,
            WmNchittest::BottomRight => 17,
        }
    }
}

/// Where a point lies among three rows and three columns of a window. The
/// middle of either is `NoWhere`.
#[derive(Clone, Copy, Debug, PartialEq, Eq, Structural)]
pub struct HitTest {
    pub row: WmNchittest,
    pub column: WmNchittest,
    pub on_resize_border: bool,
}

/// The row of a window that holds height `y`: the top band, the bottom band,
/// or neither.
pub open spec fn row_of(y: int, window: Rect) -> WmNchittest {
    if window.top <= y < window.top + TOPEXTENDWIDTH {
        WmNchittest::Top
    } else if window.bottom - BOTTOMEXTENDWIDTH <= y < window.bottom {
        WmNchittest::Bottom
    } else {
        WmNchittest::NoWhere
    }
}

/// The column of a window that holds abscissa `x`: the left band, the right
/// band, or neither.
pub open spec fn column_of(x: int, window: Rect) -> WmNchittest {
    if window.left <= x < window.left + LEFTEXTENDWIDTH {
        WmNchittest::Left
    } else if window.right - RIGHTEXTENDWIDTH <= x < window.right {
        WmNchittest::Right
    } else {
        WmNchittest::NoWhere
    }
}

/// The part of a window that row, column and border flag name together.
pub open spec fn part_of(hit: HitTest) -> WmNchittest {
    match (hit.row, hit.column) {
        (WmNchittest::Top, WmNchittest::Left) => WmNchittest::TopLeft,
        (WmNchittest::Top, WmNchittest::Right) => WmNchittest::TopRight,
        (WmNchittest::Top, _) => if hit.on_resize_border {
            WmNchittest::Top
        } else {
            WmNchittest::Caption
        },
        (WmNchittest::Bottom, WmNchittest::Left) => WmNchittest::BottomLeft,
        (WmNchittest::Bottom, WmNchittest::Right) => WmNchittest::BottomRight,
        (WmNchittest::Bottom, _) => WmNchittest::Bottom,
        (_, WmNchittest::Left) => WmNchittest::Left,
        (_, WmNchittest::Right) => WmNchittest::Right,
        (_, _) => WmNchittest::NoWhere,
    }
}

impl HitTest {
    /// The row is top, bottom or neither; the column is left, right or
    /// neither.
    pub open spec fn wf(self) -> bool {
        &&& self.row == WmNchittest::Top || self.row == WmNchittest::Bottom || self.row
            == WmNchittest::NoWhere
        &&& self.column == WmNchittest::Left || self.column == WmNchittest::Right || self.column
            == WmNchittest::NoWhere
    }

    /// The middle of the window, off the resize border.
    pub fn new() -> (hit: Self)
        ensures
            hit == (HitTest {
                row: WmNchittest::NoWhere,
                column: WmNchittest::NoWhere,
                on_resize_border: false,
            }),
            hit.wf(),
    {
        HitTest { row: WmNchittest::NoWhere, column: WmNchittest::NoWhere, on_resize_border: false }
    }

    /// Moves the row and the column to where `mouse_point` lies in
    /// `window_rect`. A row or column that the point gives no reason to
    /// change stays. In the top band the point is on the resize border where
    /// it lies above the frame's top edge, `frame_rect.top` being the offset
    /// of that edge, zero or negative.
    pub fn determine_point(self, mouse_point: Point, window_rect: Rect, frame_rect: Rect) -> (hit:
        Self)
        ensures
            hit.row == if row_of(mouse_point.y as int, window_rect) == WmNchittest::NoWhere {
                self.row
            } else {
                row_of(mouse_point.y as int, window_rect)
            },
            hit.column == if column_of(mouse_point.x as int, window_rect) == WmNchittest::NoWhere {
                self.column
            } else {
                column_of(mouse_point.x as int, window_rect)
            },
            hit.on_resize_border == if row_of(mouse_point.y as int, window_rect)
                == WmNchittest::Top {
                mouse_point.y < window_rect.top - frame_rect.top
            } else {
                self.on_resize_border
            },
            self.wf() ==> hit.wf(),
    {
        let mut hit = self;
        let x = mouse_point.x as i64;
        let y = mouse_point.y as i64;
        let top = window_rect.top as i64;
        let bottom = window_rect.bottom as i64;
        let left = window_rect.left as i64;
        let right = window_rect.right as i64;

        if y >= top && y < top + TOPEXTENDWIDTH as i64 {
            hit.on_resize_border = y < top - frame_rect.top as i64;
            hit.row = WmNchittest::Top;
        } else if y < bottom && y >= bottom - BOTTOMEXTENDWIDTH as i64 {
            hit.row = WmNchittest::Bottom;
        }
        if x >= left && x < left + LEFTEXTENDWIDTH as i64 {
            hit.column = WmNchittest::Left;
        } else if x < right && x >= right - RIGHTEXTENDWIDTH as i64 {
            hit.column = WmNchittest::Right;
        }
        hit
    }

    /// The part of the window that row, column and border flag name
    /// together: a corner, an edge, the caption or nothing.
    pub fn hit_test(&self) -> (part: WmNchittest)
        requires
            self.wf(),
        ensures
            part == part_of(*self),
    {
        match self.row {
            WmNchittest::Top => match self.column {
                WmNchittest::Left => WmNchittest::TopLeft,
                WmNchittest::Right => WmNchittest::TopRight,
                _ => {
                    if self.on_resize_border {
                        WmNchittest::Top
                    } else {
                        WmNchittest::Caption
                    }
                },
            },
            WmNchittest::Bottom => match self.column {
                WmNchittest::Left => WmNchittest::BottomLeft,
                WmNchittest::Right => WmNchittest::BottomRight,
                _ => WmNchittest::Bottom,
            },
            _ => match self.column {
                WmNchittest::Left => WmNchittest::Left,
                WmNchittest::Right => WmNchittest::Right,
                _ => WmNchittest::NoWhere,
            },
        }
    }
}

impl Default for HitTest {
    fn default() -> (hit: Self)
        ensures
            hit == (HitTest {
                row: WmNchittest::NoWhere,
                column: WmNchittest::NoWhere,
                on_resize_border: false,
            }),
    {
        HitTest::new()
    }
}

/// The part of the window under the mouse, as its number: the answer to a
/// hit test of the frame. `window_rect` is the window on the screen,
/// `frame_rect` the frame that the system would put around an empty client
/// area.
pub fn hit_test_nca(mouse_point: Point, window_rect: Rect, frame_rect: Rect) -> (code: isize)
    ensures
        code == part_of(
            HitTest {
                row: row_of(mouse_point.y as int, window_rect),
                column: column_of(mouse_point.x as int, window_rect),
                on_resize_border: mouse_point.y < window_rect.top - frame_rect.top,
            },
        ).spec_code(),
{
    let hit = HitTest::new().determine_point(mouse_point, window_rect, frame_rect);
    hit.hit_test().code()
}

} // verus!
