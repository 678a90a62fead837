use shortcut_dispatcher::placement::{
    widget_position, DisplayGeometry, Position, ScaleFactor, WindowSize, BOTTOM_MARGIN,
};

fn display(width: u32, height: u32, numerator: u32, denominator: u32) -> DisplayGeometry {
    DisplayGeometry { width, height, scale: ScaleFactor { numerator, denominator } }
}

#[test]
fn bottom_margin_is_110() {
    assert_eq!(BOTTOM_MARGIN, 110);
}

#[test]
fn widget_position_on_full_hd() {
    let size = WindowSize { width: 300, height: 80 };
    assert_eq!(
        widget_position(display(1920, 1080, 1, 1), size),
        Some(Position { x: 810, y: 890 })
    );
}

#[test]
fn widget_position_scales_the_margin() {
    let size = WindowSize { width: 300, height: 80 };
    assert_eq!(
        widget_position(display(3840, 2160, 2, 1), size),
        Some(Position { x: 1770, y: 1860 })
    );
    assert_eq!(
        widget_position(display(1920, 1080, 3, 2), size),
        Some(Position { x: 810, y: 835 })
    );
}

#[test]
fn widget_position_rounds_toward_zero() {
    assert_eq!(
        widget_position(display(1920, 1080, 5, 4), WindowSize { width: 301, height: 80 }),
        Some(Position { x: 809, y: 862 })
    );
    assert_eq!(
        widget_position(display(1920, 1080, 125, 100), WindowSize { width: 301, height: 80 }),
        Some(Position { x: 809, y: 862 })
    );
    assert_eq!(
        widget_position(display(100, 50, 5, 4), WindowSize { width: 301, height: 80 }),
        Some(Position { x: -100, y: -167 })
    );
    assert_eq!(
        widget_position(display(100, 50, 1, 1), WindowSize { width: 300, height: 80 }),
        Some(Position { x: -100, y: -140 })
    );
}

#[test]
fn widget_position_with_no_scale_has_no_margin() {
    assert_eq!(
        widget_position(display(800, 600, 0, 1), WindowSize { width: 800, height: 600 }),
        Some(Position { x: 0, y: 0 })
    );
}

#[test]
fn widget_position_stays_within_i32() {
    assert_eq!(
        widget_position(display(u32::MAX, u32::MAX, 0, 1), WindowSize { width: 0, height: 0 }),
        Some(Position { x: 2147483647, y: i32::MAX })
    );
    assert_eq!(
        widget_position(display(0, 0, u32::MAX, 1), WindowSize { width: u32::MAX, height: u32::MAX }),
        Some(Position { x: -2147483647, y: i32::MIN })
    );
    assert_eq!(
        widget_position(
            display(0, 2147483647, 1, u32::MAX),
            WindowSize { width: 0, height: 0 }
        ),
        Some(Position { x: 0, y: 2147483646 })
    );
}

#[test]
fn widget_position_needs_a_scale() {
    assert_eq!(
        widget_position(display(1920, 1080, 1, 0), WindowSize { width: 300, height: 80 }),
        None
    );
    assert_eq!(
        widget_position(display(1920, 1080, 0, 0), WindowSize { width: 300, height: 80 }),
        None
    );
}
