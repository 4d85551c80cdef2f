//! Picker geometry: the picker's size for a number of rows, and where the
//! picker goes next to the pointer so that it stays on screen.
//!
//! Coordinates and sizes are whole logical pixels.

use vstd::prelude::*;

verus! {

pub const PICKER_WIDTH: i64 = 296;
pub const PICKER_ROW_HEIGHT: i64 = 36;
pub const PICKER_CHROME_HEIGHT: i64 = 38;
pub const PICKER_MENU_EXTRA_WIDTH: i64 = 220;
pub const PICKER_MENU_EXTRA_HEIGHT: i64 = 220;
pub const PICKER_CURSOR_OFFSET: i64 = 8;
pub const PICKER_SCREEN_MARGIN: i64 = 8;

/// The largest coordinate or size (in absolute value) the geometry works
/// with; every sum it forms then fits in an `i64`.
pub const COORDINATE_LIMIT: i64 = 1152921504606846976;

/// The most rows the picker size is computed for.
pub open spec fn max_picker_rows() -> int {
    18014398509481984
}

/// Whether `v` is within the coordinate limit.
pub open spec fn in_range(v: int) -> bool {
    -COORDINATE_LIMIT <= v <= COORDINATE_LIMIT
}

/// A position.
#[derive(Clone, Copy, Debug, PartialEq, Eq, Structural)]
pub struct Point {
    pub x: i64,
    pub y: i64,
}

/// A width and height.
#[derive(Clone, Copy, Debug, PartialEq, Eq, Structural)]
pub struct Size {
    pub width: i64,
    pub height: i64,
}

/// A rectangle: its top-left corner and its size.
#[derive(Clone, Copy, Debug, PartialEq, Eq, Structural)]
pub struct Bounds {
    pub origin: Point,
    pub size: Size,
}

/// Whether every coordinate of a point is within the limit.
pub open spec fn point_in_range(p: Point) -> bool {
    in_range(p.x as int) && in_range(p.y as int)
}

/// Whether both extents of a size are within the limit.
pub open spec fn size_in_range(s: Size) -> bool {
    in_range(s.width as int) && in_range(s.height as int)
}

/// Height of the picker showing `rows` browser rows (at least one row's
/// height is reserved).
pub open spec fn picker_height(rows: nat) -> int {
    PICKER_CHROME_HEIGHT + PICKER_ROW_HEIGHT * (if rows == 0 { 1 } else { rows as int })
}

/// The picker's size when it lists `rows` browsers.
pub fn picker_size(rows: usize) -> (r: Size)
    requires
        rows <= max_picker_rows(),
    ensures
        r.width == PICKER_WIDTH,
        r.height == picker_height(rows as nat),
        size_in_range(r),
{
    let visible_rows: i64 = if rows == 0 { 1 } else { rows as i64 };
    Size { width: PICKER_WIDTH, height: PICKER_CHROME_HEIGHT + PICKER_ROW_HEIGHT * visible_rows }
}

/// The picker's size while a context menu is open beside it.
pub fn context_menu_size(picker: Size) -> (r: Size)
    requires
        size_in_range(picker),
    ensures
        r.width == picker.width + PICKER_MENU_EXTRA_WIDTH,
        r.height == picker.height + PICKER_MENU_EXTRA_HEIGHT,
{
    Size {
        width: picker.width + PICKER_MENU_EXTRA_WIDTH,
        height: picker.height + PICKER_MENU_EXTRA_HEIGHT,
    }
}

/// `value` limited to `[minimum, maximum]`, checked against `minimum` first.
pub open spec fn clamped(value: int, minimum: int, maximum: int) -> int {
    if value < minimum {
        minimum
    } else if value > maximum {
        maximum
    } else {
        value
    }
}

/// `value` limited to `[minimum, maximum]`; when `minimum > maximum`,
/// values below `minimum` give `minimum` and all others `maximum`.
pub fn clamp_pixels(value: i64, minimum: i64, maximum: i64) -> (r: i64)
    ensures
        r == clamped(value as int, minimum as int, maximum as int),
{
    if value < minimum {
        minimum
    } else if value > maximum {
        maximum
    } else {
        value
    }
}

/// One coordinate of the picker's origin, given the pointer's coordinate
/// `pointer`, the viewport's `start` and `span` on that axis, and the
/// picker's `extent`: beside the pointer (after it, or before it when
/// there is no room after), kept a margin inside the viewport, or at the
/// viewport's start when the picker does not fit.
pub open spec fn origin_on_axis(pointer: int, start: int, span: int, extent: int) -> int {
    let minimum = start + PICKER_SCREEN_MARGIN;
    let maximum = start + span - extent - PICKER_SCREEN_MARGIN;
    let after = pointer + PICKER_CURSOR_OFFSET;
    let candidate = if after + extent > start + span - PICKER_SCREEN_MARGIN {
        pointer - extent - PICKER_CURSOR_OFFSET
    } else {
        after
    };
    if maximum < minimum {
        start
    } else {
        clamped(candidate, minimum, maximum)
    }
}

fn origin_axis(pointer: i64, start: i64, span: i64, extent: i64) -> (r: i64)
    requires
        in_range(pointer as int),
        in_range(start as int),
        in_range(span as int),
        in_range(extent as int),
    ensures
        r == origin_on_axis(pointer as int, start as int, span as int, extent as int),
{
    let minimum = start + PICKER_SCREEN_MARGIN;
    let maximum = start + span - extent - PICKER_SCREEN_MARGIN;
    let mut candidate = pointer + PICKER_CURSOR_OFFSET;
    if candidate + extent > start + span - PICKER_SCREEN_MARGIN {
        candidate = pointer - extent - PICKER_CURSOR_OFFSET;
    }
    if maximum < minimum {
        start
    } else {
        clamp_pixels(candidate, minimum, maximum)
    }
}

/// Where to put the picker's top-left corner for a pointer position.
pub fn picker_origin(pointer: Point, viewport: Bounds, picker: Size) -> (r: Point)
    requires
        point_in_range(pointer),
        point_in_range(viewport.origin),
        size_in_range(viewport.size),
        size_in_range(picker),
    ensures
        r.x == origin_on_axis(pointer.x as int, viewport.origin.x as int, viewport.size.width as int, picker.width as int),
        r.y == origin_on_axis(pointer.y as int, viewport.origin.y as int, viewport.size.height as int, picker.height as int),
{
    Point {
        x: origin_axis(pointer.x, viewport.origin.x, viewport.size.width, picker.width),
        y: origin_axis(pointer.y, viewport.origin.y, viewport.size.height, picker.height),
    }
}

/// Where to place the picker for a pointer in a viewport starting at
/// (0, 0): `None` when the viewport is empty.
pub fn placement_origin(pointer: Point, viewport: Size, picker: Size) -> (r: Option<Point>)
    requires
        point_in_range(pointer),
        size_in_range(viewport),
        size_in_range(picker),
    ensures
        (viewport.width <= 0 || viewport.height <= 0) <==> r is None,
        r matches Some(o) ==> {
            &&& o.x == origin_on_axis(pointer.x as int, 0, viewport.width as int, picker.width as int)
            &&& o.y == origin_on_axis(pointer.y as int, 0, viewport.height as int, picker.height as int)
        },
{
    if viewport.width <= 0 || viewport.height <= 0 {
        return None;
    }
    Some(picker_origin(pointer, Bounds { origin: Point { x: 0, y: 0 }, size: viewport }, picker))
}

/// How a picker window is placed when it opens.
#[derive(Clone, Copy, Debug, PartialEq, Eq, Structural)]
pub enum PickerWindowPlacement {
    /// Opened under the cursor by the window system.
    UnderCursor,
    /// A full-screen overlay that places the picker where the pointer
    /// first shows up.
    PointerProbe,
    /// Wherever the compositor puts it.
    Default,
}

/// The placements to try, in order, until a picker window opens: with
/// fallbacks (in a Wayland session, and for the daemon's picker) under the
/// cursor, then the pointer probe, then the compositor's placement;
/// otherwise under the cursor on macOS and the compositor's placement
/// elsewhere.
pub fn picker_placements(fallbacks: bool, on_macos: bool) -> (r: Vec<PickerWindowPlacement>)
    ensures
        r@ == (if fallbacks {
            seq![
                PickerWindowPlacement::UnderCursor,
                PickerWindowPlacement::PointerProbe,
                PickerWindowPlacement::Default,
            ]
        } else if on_macos {
            seq![PickerWindowPlacement::UnderCursor]
        } else {
            seq![PickerWindowPlacement::Default]
        }),
{
    let r = if fallbacks {
        vec![PickerWindowPlacement::UnderCursor, PickerWindowPlacement::PointerProbe, PickerWindowPlacement::Default]
    } else if on_macos {
        vec![PickerWindowPlacement::UnderCursor]
    } else {
        vec![PickerWindowPlacement::Default]
    };
    assert(r@ =~= (if fallbacks {
        seq![
            PickerWindowPlacement::UnderCursor,
            PickerWindowPlacement::PointerProbe,
            PickerWindowPlacement::Default,
        ]
    } else if on_macos {
        seq![PickerWindowPlacement::UnderCursor]
    } else {
        seq![PickerWindowPlacement::Default]
    }));
    r
}

/// What the picker window is opened with, beyond its size.
#[derive(Clone, Copy, Debug, PartialEq, Eq, Structural)]
pub struct PickerWindowSettings {
    /// A layer-shell overlay over the whole output.
    pub layer_shell: bool,
    /// The overlay takes the keyboard.
    pub exclusive_keyboard: bool,
    pub movable: bool,
    /// The smallest size the window may take, if limited.
    pub minimum_size: Option<Size>,
    /// The window draws its own decorations.
    pub client_decorations: bool,
    pub open_under_cursor: bool,
}

/// The picker window's settings: on Linux the pointer probe is a
/// layer-shell overlay, which is not movable, has no minimum size or
/// decorations, and takes the keyboard unless the picker stays open;
/// otherwise a movable pop-up at least one chrome high, drawing its own
/// decorations, opened under the cursor when so placed.
pub fn picker_window_settings(placement: PickerWindowPlacement, persistent: bool, on_linux: bool) -> (r: PickerWindowSettings)
    ensures
        r.layer_shell == (on_linux && placement == PickerWindowPlacement::PointerProbe),
        r.exclusive_keyboard == (r.layer_shell && !persistent),
        r.movable == !r.layer_shell,
        r.minimum_size == (if r.layer_shell {
            None
        } else {
            Some(Size { width: PICKER_WIDTH, height: PICKER_CHROME_HEIGHT })
        }),
        r.client_decorations == !r.layer_shell,
        r.open_under_cursor == (placement == PickerWindowPlacement::UnderCursor),
{
    let layer_shell = on_linux && placement == PickerWindowPlacement::PointerProbe;
    PickerWindowSettings {
        layer_shell,
        exclusive_keyboard: layer_shell && !persistent,
        movable: !layer_shell,
        minimum_size: if layer_shell {
            None
        } else {
            Some(Size { width: PICKER_WIDTH, height: PICKER_CHROME_HEIGHT })
        },
        client_decorations: !layer_shell,
        open_under_cursor: placement == PickerWindowPlacement::UnderCursor,
    }
}

/// Clamping lands inside the interval when it is not empty, and leaves
/// values already inside it unchanged.
pub proof fn clamp_stays_in_interval(value: int, minimum: int, maximum: int)
    requires
        minimum <= maximum,
    ensures
        minimum <= clamped(value, minimum, maximum) <= maximum,
        minimum <= value <= maximum ==> clamped(value, minimum, maximum) == value,
{
}

/// When the picker fits in the viewport with a margin on both sides, it is
/// placed entirely inside the viewport, a margin away from its edges;
/// when it does not fit, it is placed at the viewport's start.
pub proof fn picker_stays_on_screen(pointer: int, start: int, span: int, extent: int)
    ensures
        span >= extent + 2 * PICKER_SCREEN_MARGIN ==> {
            &&& start + PICKER_SCREEN_MARGIN <= origin_on_axis(pointer, start, span, extent)
            &&& origin_on_axis(pointer, start, span, extent) + extent
                <= start + span - PICKER_SCREEN_MARGIN
        },
        span < extent + 2 * PICKER_SCREEN_MARGIN ==> origin_on_axis(pointer, start, span, extent)
            == start,
{
}

/// When there is room after the pointer, the picker sits just after it.
pub proof fn picker_follows_pointer(pointer: int, start: int, span: int, extent: int)
    requires
        start + PICKER_SCREEN_MARGIN <= pointer + PICKER_CURSOR_OFFSET,
        pointer + PICKER_CURSOR_OFFSET + extent <= start + span - PICKER_SCREEN_MARGIN,
    ensures
        origin_on_axis(pointer, start, span, extent) == pointer + PICKER_CURSOR_OFFSET,
{
}

} // verus!
