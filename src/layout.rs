//! Screen geometry of the 360×360 panel: the nine-cell grid, rectangles,
//! and where status-bar text goes.

use vstd::prelude::*;

verus! {

pub const SCREEN_WIDTH: i32 = 360;
pub const SCREEN_HEIGHT: i32 = 360;

pub const SCREEN_CENTER_X: i32 = 180;
pub const SCREEN_CENTER_Y: i32 = 180;

pub const MARGIN_SMALL: i32 = 10;
pub const MARGIN_MEDIUM: i32 = 20;
pub const MARGIN_LARGE: i32 = 30;

/// The screen less a medium margin on every side.
pub const CONTENT_AREA_START_X: i32 = MARGIN_MEDIUM;
pub const CONTENT_AREA_START_Y: i32 = MARGIN_MEDIUM;
pub const CONTENT_AREA_END_X: i32 = SCREEN_WIDTH - MARGIN_MEDIUM;
pub const CONTENT_AREA_END_Y: i32 = SCREEN_HEIGHT - MARGIN_MEDIUM;
pub const CONTENT_AREA_WIDTH: i32 = CONTENT_AREA_END_X - CONTENT_AREA_START_X;
pub const CONTENT_AREA_HEIGHT: i32 = CONTENT_AREA_END_Y - CONTENT_AREA_START_Y;

pub const CIRCLE_RADIUS_SMALL: i32 = 20;
pub const CIRCLE_RADIUS_MEDIUM: i32 = 40;
pub const CIRCLE_RADIUS_LARGE: i32 = 60;
pub const CIRCLE_RADIUS_EXTRA_LARGE: i32 = 80;

/// Line height of the 10×20 UI font.
pub const TEXT_LINE_HEIGHT: i32 = 22;

/// Side of one cell of the three-by-three grid.
pub const GRID_SIZE: i32 = 120;

/// Height of the status bar at the top of the screen.
pub const STATUS_BAR_HEIGHT: i32 = 30;

/// Width of one character of the UI font, and the gap kept from the
/// status bar's edges.
pub const TEXT_CHAR_WIDTH: i32 = 10;
pub const STATUS_BAR_MARGIN: i32 = 10;

/// Distance from the top of a 20-pixel-high glyph to its baseline.
pub const TEXT_BASELINE_OFFSET: i32 = 16;

/// `a / b` rounded toward zero, as integer division does, for `b > 0`.
pub open spec fn div_trunc(a: int, b: int) -> int {
    if a >= 0 {
        a / b
    } else {
        -((-a) / b)
    }
}

/// A cell of the three-by-three grid.
#[derive(Clone, Copy, Debug, PartialEq, Eq, Structural)]
pub enum GridPosition {
    TopLeft,
    TopCenter,
    TopRight,
    MiddleLeft,
    MiddleCenter,
    MiddleRight,
    BottomLeft,
    BottomCenter,
    BottomRight,
}

impl GridPosition {
    /// Column of the cell, 0 to 2 from the left.
    pub open spec fn column(self) -> int {
        match self {
            GridPosition::TopLeft | GridPosition::MiddleLeft | GridPosition::BottomLeft => 0,
            GridPosition::TopCenter | GridPosition::MiddleCenter | GridPosition::BottomCenter => 1,
            _ => 2,
        }
    }

    /// Row of the cell, 0 to 2 from the top.
    pub open spec fn row(self) -> int {
        match self {
            GridPosition::TopLeft | GridPosition::TopCenter | GridPosition::TopRight => 0,
            GridPosition::MiddleLeft | GridPosition::MiddleCenter | GridPosition::MiddleRight => 1,
            _ => 2,
        }
    }

    /// The cell's top-left corner.
    pub fn get_top_left(&self) -> (r: (i32, i32))
        ensures
            r.0 == self.column() * GRID_SIZE,
            r.1 == self.row() * GRID_SIZE,
    {
        match self {
            GridPosition::TopLeft => (0, 0),
            GridPosition::TopCenter => (GRID_SIZE, 0),
            GridPosition::TopRight => (GRID_SIZE * 2, 0),
            GridPosition::MiddleLeft => (0, GRID_SIZE),
            GridPosition::MiddleCenter => (GRID_SIZE, GRID_SIZE),
            GridPosition::MiddleRight => (GRID_SIZE * 2, GRID_SIZE),
            GridPosition::BottomLeft => (0, GRID_SIZE * 2),
            GridPosition::BottomCenter => (GRID_SIZE, GRID_SIZE * 2),
            GridPosition::BottomRight => (GRID_SIZE * 2, GRID_SIZE * 2),
        }
    }

    /// The cell's centre.
    pub fn get_center(&self) -> (r: (i32, i32))
        ensures
            r.0 == self.column() * GRID_SIZE + GRID_SIZE / 2,
            r.1 == self.row() * GRID_SIZE + GRID_SIZE / 2,
    {
        let (x, y) = self.get_top_left();
        (x + GRID_SIZE / 2, y + GRID_SIZE / 2)
    }
}

/// A rectangle on the screen.
#[derive(Clone, Copy, Debug, PartialEq, Eq, Structural)]
pub struct ScreenRect {
    pub x: i32,
    pub y: i32,
    pub width: i32,
    pub height: i32,
}

impl ScreenRect {
    pub fn new(x: i32, y: i32, width: i32, height: i32) -> (r: ScreenRect)
        ensures
            r == (ScreenRect { x, y, width, height }),
    {
        ScreenRect { x, y, width, height }
    }

    /// The centre, halves rounded toward zero.
    pub fn center(&self) -> (r: (i32, i32))
        requires
            i32::MIN <= self.x + div_trunc(self.width as int, 2) <= i32::MAX,
            i32::MIN <= self.y + div_trunc(self.height as int, 2) <= i32::MAX,
        ensures
            r.0 == self.x + div_trunc(self.width as int, 2),
            r.1 == self.y + div_trunc(self.height as int, 2),
    {
        (self.x + self.width / 2, self.y + self.height / 2)
    }

    /// The last pixel inside, bottom right.
    pub fn bottom_right(&self) -> (r: (i32, i32))
        requires
            i32::MIN <= self.x + self.width - 1 <= i32::MAX,
            i32::MIN <= self.y + self.height - 1 <= i32::MAX,
        ensures
            r.0 == self.x + self.width - 1,
            r.1 == self.y + self.height - 1,
    {
        ((self.x as i64 + self.width as i64 - 1) as i32, (self.y as i64 + self.height as i64 - 1)
            as i32)
    }
}

/// Where a status-bar text goes.
#[derive(Clone, Copy, Debug, PartialEq, Eq, Structural)]
pub enum StatusBarPosition {
    Left,
    Center,
    Right,
}

/// Width in pixels of `len` characters.
pub open spec fn text_width(len: int) -> int {
    len * TEXT_CHAR_WIDTH
}

/// Baseline position of a text of `text_len` characters in a status bar of
/// height `bar_height` at the top of the screen: left-aligned or
/// right-aligned with a margin, or centred; vertically on the bar's middle.
pub open spec fn text_position_spec(text_len: int, position: StatusBarPosition, bar_height: int) -> (
    int,
    int,
) {
    let w = text_width(text_len);
    let x = match position {
        StatusBarPosition::Left => STATUS_BAR_MARGIN as int,
        StatusBarPosition::Center => div_trunc(SCREEN_WIDTH - w, 2),
        StatusBarPosition::Right => SCREEN_WIDTH - w - STATUS_BAR_MARGIN,
    };
    (x, div_trunc(bar_height + TEXT_BASELINE_OFFSET, 2))
}

/// See [`text_position_spec`]; `text` is measured in bytes, as the font is
/// ASCII.
pub fn calculate_text_position(text: &str, position: StatusBarPosition, bar_height: i32) -> (r: (
    i32,
    i32,
))
    requires
        text.len() <= 100_000_000,
        bar_height <= i32::MAX - TEXT_BASELINE_OFFSET,
    ensures
        (r.0 as int, r.1 as int) == text_position_spec(text.len() as int, position, bar_height as int),
{
    let w = text.len() as i32 * TEXT_CHAR_WIDTH;
    let x = match position {
        StatusBarPosition::Left => STATUS_BAR_MARGIN,
        StatusBarPosition::Center => (SCREEN_WIDTH - w) / 2,
        StatusBarPosition::Right => SCREEN_WIDTH - w - STATUS_BAR_MARGIN,
    };
    (x, (bar_height + TEXT_BASELINE_OFFSET) / 2)
}

} // verus!
