//! Where the floating widget goes on its display.

use vstd::prelude::*;

verus! {

/// The distance, in logical pixels, that the widget keeps from the bottom
/// edge of its display.
pub const BOTTOM_MARGIN: u32 = 110;

/// A display's scale factor as an exact fraction: physical pixels per logical
/// pixel. A denominator of 0 stands for a scale factor that is not known.
#[derive(Clone, Copy, Debug, PartialEq, Eq, Hash, Structural)]
pub struct ScaleFactor {
    pub numerator: u32,
    pub denominator: u32,
}

/// Size and scale factor of a display, in physical pixels.
#[derive(Clone, Copy, Debug, PartialEq, Eq, Hash, Structural)]
pub struct DisplayGeometry {
    pub width: u32,
    pub height: u32,
    pub scale: ScaleFactor,
}

/// Outer size of a window, in physical pixels.
#[derive(Clone, Copy, Debug, PartialEq, Eq, Hash, Structural)]
pub struct WindowSize {
    pub width: u32,
    pub height: u32,
}

/// Position of a window's top left corner, in physical pixels.
#[derive(Clone, Copy, Debug, PartialEq, Eq, Hash, Structural)]
pub struct Position {
    pub x: i32,
    pub y: i32,
}

/// `n / d` rounded toward zero, for a positive `d`.
pub open spec fn truncated_quotient(n: int, d: int) -> int {
    if n >= 0 {
        n / d
    } else {
        -((-n) / d)
    }
}

/// `v`, or the bound of `i32` nearest to it where `v` does not fit.
pub open spec fn clamped_to_i32(v: int) -> int {
    if v < i32::MIN {
        i32::MIN as int
    } else if v > i32::MAX {
        i32::MAX as int
    } else {
        v
    }
}

/// The horizontal position that centres the window on the display.
pub open spec fn centred_x(display: DisplayGeometry, size: WindowSize) -> int {
    truncated_quotient(display.width - size.width, 2)
}

/// The vertical position that keeps the window `BOTTOM_MARGIN` logical pixels
/// above the bottom edge of the display: the display's height, less the
/// window's height, less the margin times the scale factor, rounded toward
/// zero and kept within `i32`.
pub open spec fn raised_y(display: DisplayGeometry, size: WindowSize) -> int
    recommends
        display.scale.denominator > 0,
{
    clamped_to_i32(
        truncated_quotient(
            (display.height - size.height) * display.scale.denominator - BOTTOM_MARGIN
                * display.scale.numerator,
            display.scale.denominator as int,
        ),
    )
}

/// The widget's position on `display`, or `None` where the display's scale
/// factor is not known.
pub open spec fn widget_placement(display: DisplayGeometry, size: WindowSize) -> Option<Position> {
    if display.scale.denominator == 0 {
        None
    } else {
        Some(Position { x: centred_x(display, size) as i32, y: raised_y(display, size) as i32 })
    }
}

/// Both coordinates of a placement fit in `i32`, so the position holds
/// exactly what `centred_x` and `raised_y` say.
pub proof fn lemma_placement_is_exact(display: DisplayGeometry, size: WindowSize)
    requires
        display.scale.denominator > 0,
    ensures
        i32::MIN <= centred_x(display, size) <= i32::MAX,
        i32::MIN <= raised_y(display, size) <= i32::MAX,
        widget_placement(display, size) matches Some(position) && position.x == centred_x(
            display,
            size,
        ) && position.y == raised_y(display, size),
{
}

/// `n / d` rounded toward zero.
fn quotient_toward_zero(n: i128, d: u32) -> (q: i128)
    requires
        d > 0,
        -0x1_0000_0000_0000_0000_0000 < n < 0x1_0000_0000_0000_0000_0000,
    ensures
        q == truncated_quotient(n as int, d as int),
{
    if n >= 0 {
        let m: u128 = n as u128;
        let q: u128 = m / (d as u128);
        q as i128
    } else {
        let m: u128 = (-n) as u128;
        let q: u128 = m / (d as u128);
        -(q as i128)
    }
}

/// Computes where the widget goes: centred horizontally, and `BOTTOM_MARGIN`
/// logical pixels above the bottom edge of its display.
pub fn widget_position(display: DisplayGeometry, size: WindowSize) -> (position: Option<Position>)
    ensures
        position == widget_placement(display, size),
        position.is_none() <==> display.scale.denominator == 0,
        position matches Some(place) ==> place.x == centred_x(display, size) && place.y == raised_y(
            display,
            size,
        ),
{
    if display.scale.denominator == 0 {
        return None;
    }
    proof {
        lemma_placement_is_exact(display, size);
    }
    let denominator: i128 = display.scale.denominator as i128;
    let dx: i128 = display.width as i128 - size.width as i128;
    let x: i128 = quotient_toward_zero(dx, 2);
    let dy: i128 = display.height as i128 - size.height as i128;
    assert(-0x1_0000_0000_0000_0000 < dy * denominator < 0x1_0000_0000_0000_0000)
        by (nonlinear_arith)
        requires
            -0x1_0000_0000 < dy < 0x1_0000_0000,
            0 < denominator < 0x1_0000_0000,
    ;
    let margin: i128 = BOTTOM_MARGIN as i128;
    let offset: i128 = margin * (display.scale.numerator as i128);
    let scaled: i128 = dy * denominator - offset;
    let y: i128 = quotient_toward_zero(scaled, display.scale.denominator);
    let y: i128 = if y < i32::MIN as i128 {
        i32::MIN as i128
    } else if y > i32::MAX as i128 {
        i32::MAX as i128
    } else {
        y
    };
    Some(Position { x: x as i32, y: y as i32 })
}

} // verus!
