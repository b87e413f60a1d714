//! Placement and hit-testing helpers for drawing.

use vstd::prelude::*;
use crate::layout::{div_trunc, TEXT_CHAR_WIDTH};

verus! {

/// Height of the UI font.
pub const TEXT_HEIGHT: i32 = 20;

/// Top-left corner that centres an item of the given size in an area,
/// halves rounded toward zero.
pub open spec fn centered(area: int, area_size: int, item_size: int) -> int {
    area + div_trunc(area_size - item_size, 2)
}

/// Top-left corner of `text` centred in the area, each byte
/// `TEXT_CHAR_WIDTH` wide and the text `TEXT_HEIGHT` high.
pub fn center_text_in_area(text: &str, area_x: i32, area_y: i32, area_width: i32, area_height: i32) -> (r: (
    i32,
    i32,
))
    requires
        text.len() * TEXT_CHAR_WIDTH <= i32::MAX,
        i32::MIN <= centered(area_x as int, area_width as int, text.len() * TEXT_CHAR_WIDTH) <= i32::MAX,
        i32::MIN <= centered(area_y as int, area_height as int, TEXT_HEIGHT as int) <= i32::MAX,
    ensures
        r.0 == centered(area_x as int, area_width as int, text.len() * TEXT_CHAR_WIDTH),
        r.1 == centered(area_y as int, area_height as int, TEXT_HEIGHT as int),
{
    let text_width = text.len() as i64 * TEXT_CHAR_WIDTH as i64;
    let x = area_x as i64 + (area_width as i64 - text_width) / 2;
    let y = area_y as i64 + (area_height as i64 - TEXT_HEIGHT as i64) / 2;
    (x as i32, y as i32)
}

/// Top-left corner of an image centred in the area.
pub fn center_image_in_area(
    image_width: i32,
    image_height: i32,
    area_x: i32,
    area_y: i32,
    area_width: i32,
    area_height: i32,
) -> (r: (i32, i32))
    requires
        i32::MIN <= centered(area_x as int, area_width as int, image_width as int) <= i32::MAX,
        i32::MIN <= centered(area_y as int, area_height as int, image_height as int) <= i32::MAX,
    ensures
        r.0 == centered(area_x as int, area_width as int, image_width as int),
        r.1 == centered(area_y as int, area_height as int, image_height as int),
{
    let x = area_x as i64 + (area_width as i64 - image_width as i64) / 2;
    let y = area_y as i64 + (area_height as i64 - image_height as i64) / 2;
    (x as i32, y as i32)
}

/// Whether the point lies in the half-open area
/// `[area_x, area_x + area_width) × [area_y, area_y + area_height)`.
pub fn is_point_in_area(x: i32, y: i32, area_x: i32, area_y: i32, area_width: i32, area_height: i32) -> (r:
    bool)
    ensures
        r == (area_x <= x < area_x + area_width && area_y <= y < area_y + area_height),
{
    let x = x as i64;
    let y = y as i64;
    x >= area_x as i64 && x < area_x as i64 + area_width as i64 && y >= area_y as i64 && y
        < area_y as i64 + area_height as i64
}

/// Whether the point lies in the closed disc of `radius` around the centre;
/// no point lies in a disc of negative radius.
pub fn is_point_in_circle(x: i32, y: i32, center_x: i32, center_y: i32, radius: i32) -> (r: bool)
    ensures
        r == (radius >= 0 && (x - center_x) * (x - center_x) + (y - center_y) * (y - center_y)
            <= radius * radius),
{
    if radius < 0 {
        return false;
    }
    let dx = x as i128 - center_x as i128;
    let dy = y as i128 - center_y as i128;
    let rr = radius as i128;
    assert(0 <= dx * dx <= 0x1_0000_0000_0000_0000 && 0 <= dy * dy <= 0x1_0000_0000_0000_0000 && 0 <= rr
        * rr <= 0x1_0000_0000_0000_0000) by (nonlinear_arith)
        requires
            -0x1_0000_0000 < dx < 0x1_0000_0000,
            -0x1_0000_0000 < dy < 0x1_0000_0000,
            0 <= rr < 0x8000_0000,
    ;
    dx * dx + dy * dy <= rr * rr
}

/// `value` limited to `[min, max]`: `min` below it, else `max` above it.
pub fn clamp(value: i32, min: i32, max: i32) -> (r: i32)
    ensures
        r == if value < min {
            min
        } else if value > max {
            max
        } else {
            value
        },
{
    if value < min {
        min
    } else if value > max {
        max
    } else {
        value
    }
}

/// 8-bit red, green and blue scaled to the 5-, 6- and 5-bit channels of
/// RGB565, rounding down.
pub fn rgb565_channels(r: u8, g: u8, b: u8) -> (c: (u8, u8, u8))
    ensures
        c.0 == r * 31 / 255,
        c.1 == g * 63 / 255,
        c.2 == b * 31 / 255,
        c.0 < 32 && c.1 < 64 && c.2 < 32,
{
    ((r as u16 * 31 / 255) as u8, (g as u16 * 63 / 255) as u8, (b as u16 * 31 / 255) as u8)
}

/// The red, green and blue bytes of a `0xRRGGBB` colour.
pub fn hex_channels(hex: u32) -> (c: (u8, u8, u8))
    ensures
        c.0 == (hex / 0x1_0000) % 0x100,
        c.1 == (hex / 0x100) % 0x100,
        c.2 == hex % 0x100,
{
    let r = (hex >> 16) & 0xFF;
    let g = (hex >> 8) & 0xFF;
    let b = hex & 0xFF;
    assert(r == (hex / 0x1_0000) % 0x100) by (bit_vector)
        requires
            r == (hex >> 16) & 0xFF,
    ;
    assert(g == (hex / 0x100) % 0x100) by (bit_vector)
        requires
            g == (hex >> 8) & 0xFF,
    ;
    assert(b == hex % 0x100) by (bit_vector)
        requires
            b == hex & 0xFF,
    ;
    (r as u8, g as u8, b as u8)
}

} // verus!
