//! The webview that fills a native Wayland window.

use vstd::prelude::*;

use crate::geometry::{clamped, saturate_i32, saturate_u32, PhysicalPosition, PhysicalSize, Rect};
use crate::webview::AppWebview;
use crate::window::{cef_bool, int_of, Color};

verus! {

/// `tauri_utils::config::Color::default`, taken apart by its conversion to a tuple:
/// black, and fully transparent.
#[verifier::external_body]
pub(crate) fn default_color() -> (r: Color)
    ensures
        r == (Color { red: 0, green: 0, blue: 0, alpha: 0 }),
{
    let (red, green, blue, alpha) = tauri_utils::config::Color::default().into();
    Color { red, green, blue, alpha }
}

/// A color as CEF takes it: one byte each, from alpha down to blue.
pub open spec fn argb_of(color: Color) -> int {
    color.alpha * 0x100_0000 + color.red * 0x1_0000 + color.green * 0x100 + color.blue
}

/// The color that stands for none: black, and fully transparent.
pub open spec fn color_or_none(color: Option<Color>) -> Color {
    match color {
        Some(color) => color,
        None => Color { red: 0, green: 0, blue: 0, alpha: 0 },
    }
}

/// A color as CEF takes it.
pub fn argb(color: Color) -> (r: u32)
    ensures
        r == argb_of(color),
{
    let (a, r, g, b) = (color.alpha as u32, color.red as u32, color.green as u32, color.blue as u32);
    assert(((a << 24) | (r << 16) | (g << 8) | b) == a * 0x100_0000 + r * 0x1_0000 + g * 0x100 + b)
        by (bit_vector)
        requires
            a < 0x100,
            r < 0x100,
            g < 0x100,
            b < 0x100,
    ;
    (a << 24) | (r << 16) | (g << 8) | b
}

/// A rectangle in physical pixels.
#[derive(Clone, Copy, Debug, PartialEq, Eq, Structural)]
pub struct PhysicalRect {
    pub position: PhysicalPosition,
    pub size: PhysicalSize,
}

/// The bounds of a view, with a negative extent as none.
pub open spec fn shown_bounds(bounds: Rect) -> Rect {
    Rect {
        width: clamped(bounds.width as int, 0, i32::MAX as int) as i32,
        height: clamped(bounds.height as int, 0, i32::MAX as int) as i32,
        ..bounds
    }
}

/// The bounds that a view is to get: at least one pixel each way.
pub open spec fn wanted_bounds(x: i32, y: i32, width: i32, height: i32) -> Rect {
    Rect {
        x,
        y,
        width: clamped(width as int, 1, i32::MAX as int) as i32,
        height: clamped(height as int, 1, i32::MAX as int) as i32,
    }
}

/// A rectangle in physical pixels, each of its numbers the nearest that fits.
pub open spec fn physical_rect_of(x: int, y: int, width: int, height: int) -> PhysicalRect {
    PhysicalRect {
        position: PhysicalPosition {
            x: clamped(x, i32::MIN as int, i32::MAX as int) as i32,
            y: clamped(y, i32::MIN as int, i32::MAX as int) as i32,
        },
        size: PhysicalSize {
            width: clamped(width, 0, u32::MAX as int) as u32,
            height: clamped(height, 0, u32::MAX as int) as u32,
        },
    }
}

/// A rectangle in device-independent pixels, each of its numbers the nearest that
/// fits.
pub open spec fn view_rect_of(x: int, y: int, width: int, height: int) -> Rect {
    Rect {
        x: clamped(x, i32::MIN as int, i32::MAX as int) as i32,
        y: clamped(y, i32::MIN as int, i32::MAX as int) as i32,
        width: clamped(width, i32::MIN as int, i32::MAX as int) as i32,
        height: clamped(height, i32::MIN as int, i32::MAX as int) as i32,
    }
}

impl AppWebview {
    /// The color that the webview's view, if there is one, is to have.
    pub fn native_wayland_set_background_color(&self, has_view: bool, color: Option<Color>) -> (r: Option<u32>)
        ensures
            r is Some <==> has_view,
            r matches Some(value) ==> value == argb_of(color_or_none(color)),
            has_view && color is None ==> r == Some(0u32),
            has_view ==> (color matches Some(color) ==> r->0 == color.alpha * 0x100_0000 + color.red
                * 0x1_0000 + color.green * 0x100 + color.blue),
    {
        if !has_view {
            return None;
        }
        let color = match color {
            Some(color) => color,
            None => default_color(),
        };
        Some(argb(color))
    }

    /// The bounds of the webview's view, if there is one, with a negative extent as
    /// none. They are still to be multiplied by the scale factor and rounded, for
    /// [`physical_rect`].
    pub fn native_wayland_bounds(&self, view: Option<Rect>) -> (r: Option<Rect>)
        ensures
            r is Some <==> view is Some,
            view matches Some(bounds) ==> r == Some(shown_bounds(bounds)),
    {
        match view {
            Some(bounds) => Some(
                Rect {
                    x: bounds.x,
                    y: bounds.y,
                    width: if bounds.width < 0 {
                        0
                    } else {
                        bounds.width
                    },
                    height: if bounds.height < 0 {
                        0
                    } else {
                        bounds.height
                    },
                },
            ),
            None => None,
        }
    }

    /// Whether the webview's view is asked to take the focus: if there is one.
    pub fn native_wayland_take_input_focus(&self, has_view: bool) -> (r: bool)
        ensures
            r == has_view,
    {
        has_view
    }

    /// How the visibility of the webview's view, if there is one, is set.
    pub fn native_wayland_set_visible(&self, has_view: bool, visible: bool) -> (r: Option<i32>)
        ensures
            r == (if has_view {
                Some(int_of(visible))
            } else {
                None
            }),
            r == Some(1i32) <==> has_view && visible,
            r == Some(0i32) <==> has_view && !visible,
    {
        if has_view {
            Some(cef_bool(visible))
        } else {
            None
        }
    }

    /// The bounds in physical pixels that the webview's view, if there is one, is
    /// to get: at least one pixel each way. They are still to be divided by the
    /// scale factor and rounded, for [`view_rect`].
    pub fn native_wayland_set_bounds(
        &self,
        has_view: bool,
        x: i32,
        y: i32,
        width: i32,
        height: i32,
    ) -> (r: Option<Rect>)
        ensures
            r is Some <==> has_view,
            r matches Some(bounds) ==> bounds == wanted_bounds(x, y, width, height),
    {
        if !has_view {
            return None;
        }
        Some(
            Rect {
                x,
                y,
                width: if width < 1 {
                    1
                } else {
                    width
                },
                height: if height < 1 {
                    1
                } else {
                    height
                },
            },
        )
    }
}

/// A rectangle in physical pixels, from coordinates that were multiplied by the
/// scale factor and rounded.
pub fn physical_rect(x: i64, y: i64, width: i64, height: i64) -> (r: PhysicalRect)
    ensures
        r == physical_rect_of(x as int, y as int, width as int, height as int),
{
    PhysicalRect {
        position: PhysicalPosition { x: saturate_i32(x), y: saturate_i32(y) },
        size: PhysicalSize { width: saturate_u32(width), height: saturate_u32(height) },
    }
}

/// A rectangle in device-independent pixels, from coordinates that were divided by
/// the scale factor and rounded.
pub fn view_rect(x: i64, y: i64, width: i64, height: i64) -> (r: Rect)
    ensures
        r == view_rect_of(x as int, y as int, width as int, height as int),
{
    Rect {
        x: saturate_i32(x),
        y: saturate_i32(y),
        width: saturate_i32(width),
        height: saturate_i32(height),
    }
}

/// Bounds that were set are read back where the scale factor is one, which leaves
/// every number as it is: in the place asked for, in the size asked for, and at
/// least one pixel each way.
pub proof fn bounds_are_read_back(x: i32, y: i32, width: i32, height: i32)
    ensures
        ({
            let wanted = wanted_bounds(x, y, width, height);
            let view = view_rect_of(
                wanted.x as int,
                wanted.y as int,
                wanted.width as int,
                wanted.height as int,
            );
            let shown = shown_bounds(view);
            let read = physical_rect_of(
                shown.x as int,
                shown.y as int,
                shown.width as int,
                shown.height as int,
            );
            &&& view == wanted
            &&& read.position == (PhysicalPosition { x, y })
            &&& read.size.width == clamped(width as int, 1, i32::MAX as int)
            &&& read.size.height == clamped(height as int, 1, i32::MAX as int)
        }),
{
}

/// Two colors that CEF takes for the same are the same.
pub proof fn argb_keeps_the_color(a: Color, b: Color)
    requires
        argb_of(a) == argb_of(b),
    ensures
        a == b,
{
}

/// Each part of a color has a byte of its own: alpha the highest, then red, green and
/// blue. Without a color all four are zero.
pub proof fn parts_have_bytes_of_their_own(color: Color)
    ensures
        color.alpha * 0x100_0000 <= argb_of(color) < (color.alpha + 1) * 0x100_0000,
        color.red * 0x1_0000 <= argb_of(color) - color.alpha * 0x100_0000 < (color.red + 1) * 0x1_0000,
        color.green * 0x100 <= argb_of(color) - color.alpha * 0x100_0000 - color.red * 0x1_0000 < (
        color.green + 1) * 0x100,
        color.blue == argb_of(color) - color.alpha * 0x100_0000 - color.red * 0x1_0000 - color.green
            * 0x100,
        0 <= argb_of(color) <= u32::MAX,
        argb_of(color_or_none(Some(color))) == argb_of(color),
        argb_of(color_or_none(None)) == 0,
{
}

/// Numbers that fit are kept when a rectangle is made, and others become the nearest
/// that fit; a view is shown where it is, with a negative extent as none, and wanted
/// where it is asked for, in no less than one pixel each way.
pub proof fn rectangles_keep_what_fits(bounds: Rect, x: int, y: int, width: int, height: int)
    ensures
        i32::MIN <= x <= i32::MAX ==> view_rect_of(x, y, width, height).x == x && physical_rect_of(
            x,
            y,
            width,
            height,
        ).position.x == x,
        i32::MIN <= y <= i32::MAX ==> view_rect_of(x, y, width, height).y == y && physical_rect_of(
            x,
            y,
            width,
            height,
        ).position.y == y,
        i32::MIN <= width <= i32::MAX ==> view_rect_of(x, y, width, height).width == width,
        i32::MIN <= height <= i32::MAX ==> view_rect_of(x, y, width, height).height == height,
        0 <= width <= u32::MAX ==> physical_rect_of(x, y, width, height).size.width == width,
        0 <= height <= u32::MAX ==> physical_rect_of(x, y, width, height).size.height == height,
        x > i32::MAX ==> view_rect_of(x, y, width, height).x == i32::MAX && physical_rect_of(
            x,
            y,
            width,
            height,
        ).position.x == i32::MAX,
        x < i32::MIN ==> view_rect_of(x, y, width, height).x == i32::MIN && physical_rect_of(
            x,
            y,
            width,
            height,
        ).position.x == i32::MIN,
        y > i32::MAX ==> view_rect_of(x, y, width, height).y == i32::MAX && physical_rect_of(
            x,
            y,
            width,
            height,
        ).position.y == i32::MAX,
        y < i32::MIN ==> view_rect_of(x, y, width, height).y == i32::MIN && physical_rect_of(
            x,
            y,
            width,
            height,
        ).position.y == i32::MIN,
        width > i32::MAX ==> view_rect_of(x, y, width, height).width == i32::MAX,
        width < i32::MIN ==> view_rect_of(x, y, width, height).width == i32::MIN,
        height > i32::MAX ==> view_rect_of(x, y, width, height).height == i32::MAX,
        height < i32::MIN ==> view_rect_of(x, y, width, height).height == i32::MIN,
        width > u32::MAX ==> physical_rect_of(x, y, width, height).size.width == u32::MAX,
        width < 0 ==> physical_rect_of(x, y, width, height).size.width == 0,
        height > u32::MAX ==> physical_rect_of(x, y, width, height).size.height == u32::MAX,
        height < 0 ==> physical_rect_of(x, y, width, height).size.height == 0,
        shown_bounds(bounds).x == bounds.x && shown_bounds(bounds).y == bounds.y,
        bounds.width >= 0 ==> shown_bounds(bounds).width == bounds.width,
        bounds.width < 0 ==> shown_bounds(bounds).width == 0,
        bounds.height >= 0 ==> shown_bounds(bounds).height == bounds.height,
        bounds.height < 0 ==> shown_bounds(bounds).height == 0,
        ({
            let wanted = wanted_bounds(bounds.x, bounds.y, bounds.width, bounds.height);
            &&& wanted.x == bounds.x && wanted.y == bounds.y
            &&& bounds.width >= 1 ==> wanted.width == bounds.width
            &&& bounds.width < 1 ==> wanted.width == 1
            &&& bounds.height >= 1 ==> wanted.height == bounds.height
            &&& bounds.height < 1 ==> wanted.height == 1
        }),
{
}

} // verus!
