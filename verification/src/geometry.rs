//! Integer geometry of the overlay window: moving, resizing, the text area
//! and the placement of the capture preview.

use vstd::prelude::*;

verus! {

/// Smallest width and height the overlay can be resized to.
pub const MIN_WINDOW_SIZE: i32 = 100;

/// Distance, in pixels, between the client edges and the text or the preview.
pub const CONTENT_PADDING: i32 = 10;

/// A rectangle in screen or client coordinates, as Win32 reports it.
#[derive(Clone, Copy, Debug, PartialEq, Eq, Structural)]
pub struct Rect {
    pub left: i32,
    pub top: i32,
    pub right: i32,
    pub bottom: i32,
}

/// `a` if it is at least `b`, else `b`.
pub open spec fn at_least(a: int, b: int) -> int {
    if a >= b { a } else { b }
}

/// Integer division by two that rounds toward zero, as `/` does on `i32`.
pub open spec fn half_toward_zero(n: int) -> int {
    if n >= 0 { n / 2 } else { -((-n) / 2) }
}

/// Whether moving the window's top-left corner by `(dx, dy)` stays in `i32`.
pub open spec fn move_fits(rect: Rect, dx: i32, dy: i32) -> bool {
    &&& i32::MIN <= rect.left + dx <= i32::MAX
    &&& i32::MIN <= rect.top + dy <= i32::MAX
}

/// Whether the window's size, and that size changed by `(dw, dh)`, stay in `i32`.
pub open spec fn resize_fits(rect: Rect, dw: i32, dh: i32) -> bool {
    &&& i32::MIN <= rect.right - rect.left <= i32::MAX
    &&& i32::MIN <= rect.bottom - rect.top <= i32::MAX
    &&& i32::MIN <= rect.right - rect.left + dw <= i32::MAX
    &&& i32::MIN <= rect.bottom - rect.top + dh <= i32::MAX
}

/// The new position of the window's top-left corner after a move by `(dx, dy)`.
pub fn moved_origin(rect: Rect, dx: i32, dy: i32) -> (origin: (i32, i32))
    requires
        move_fits(rect, dx, dy),
    ensures
        origin.0 == rect.left + dx,
        origin.1 == rect.top + dy,
{
    (rect.left + dx, rect.top + dy)
}

/// The new size of the window after growing it by `(dw, dh)`; neither side
/// goes below `MIN_WINDOW_SIZE`.
pub fn resized_extent(rect: Rect, dw: i32, dh: i32) -> (extent: (i32, i32))
    requires
        resize_fits(rect, dw, dh),
    ensures
        extent.0 == at_least(rect.right - rect.left + dw, MIN_WINDOW_SIZE as int),
        extent.1 == at_least(rect.bottom - rect.top + dh, MIN_WINDOW_SIZE as int),
{
    let width = rect.right - rect.left;
    let height = rect.bottom - rect.top;
    let grown_width = width + dw;
    let grown_height = height + dh;
    let new_width = if grown_width >= MIN_WINDOW_SIZE { grown_width } else { MIN_WINDOW_SIZE };
    let new_height = if grown_height >= MIN_WINDOW_SIZE { grown_height } else { MIN_WINDOW_SIZE };
    (new_width, new_height)
}

/// Whether the client rectangle can be shrunk by `CONTENT_PADDING` on each side in `i32`.
pub open spec fn inset_fits(client: Rect) -> bool {
    &&& client.left + CONTENT_PADDING <= i32::MAX
    &&& client.top + CONTENT_PADDING <= i32::MAX
    &&& client.right - CONTENT_PADDING >= i32::MIN
    &&& client.bottom - CONTENT_PADDING >= i32::MIN
}

/// `client` shrunk by `CONTENT_PADDING` on every side.
pub open spec fn inset(client: Rect) -> Rect {
    Rect {
        left: (client.left + CONTENT_PADDING) as i32,
        top: (client.top + CONTENT_PADDING) as i32,
        right: (client.right - CONTENT_PADDING) as i32,
        bottom: (client.bottom - CONTENT_PADDING) as i32,
    }
}

/// The area in which a reply is drawn: the client rectangle shrunk by
/// `CONTENT_PADDING` on every side.
pub fn text_area(client: Rect) -> (area: Rect)
    requires
        inset_fits(client),
    ensures
        area.left == client.left + CONTENT_PADDING,
        area.top == client.top + CONTENT_PADDING,
        area.right == client.right - CONTENT_PADDING,
        area.bottom == client.bottom - CONTENT_PADDING,
        area == inset(client),
{
    Rect {
        left: client.left + CONTENT_PADDING,
        top: client.top + CONTENT_PADDING,
        right: client.right - CONTENT_PADDING,
        bottom: client.bottom - CONTENT_PADDING,
    }
}

/// Whether the client size, and that size less twice the padding, stay in `i32`.
pub open spec fn preview_fits(client: Rect) -> bool {
    &&& i32::MIN <= client.right - client.left <= i32::MAX
    &&& i32::MIN <= client.bottom - client.top <= i32::MAX
    &&& i32::MIN <= client.right - client.left - 2 * CONTENT_PADDING <= i32::MAX
    &&& i32::MIN <= client.bottom - client.top - 2 * CONTENT_PADDING <= i32::MAX
}

/// The largest width and height a preview may take inside the client
/// rectangle: its size less the padding on both sides, and at least one pixel.
pub fn preview_bounds(client: Rect) -> (bounds: (i32, i32))
    requires
        preview_fits(client),
    ensures
        bounds.0 == at_least(client.right - client.left - 2 * CONTENT_PADDING, 1),
        bounds.1 == at_least(client.bottom - client.top - 2 * CONTENT_PADDING, 1),
{
    let client_width = client.right - client.left;
    let client_height = client.bottom - client.top;
    let room_width = client_width - 2 * CONTENT_PADDING;
    let room_height = client_height - 2 * CONTENT_PADDING;
    let max_width = if room_width >= 1 { room_width } else { 1 };
    let max_height = if room_height >= 1 { room_height } else { 1 };
    (max_width, max_height)
}

/// Exec form of `half_toward_zero`.
fn halve_toward_zero(n: i32) -> (h: i32)
    ensures
        h == half_toward_zero(n as int),
{
    if n >= 0 {
        n / 2
    } else if n == i32::MIN {
        -(i32::MAX / 2) - 1
    } else {
        -((-n) / 2)
    }
}

/// Whether the centring offsets of a `width` by `height` preview in the
/// `max_width` by `max_height` room stay in `i32`.
pub open spec fn origin_fits(max_width: i32, max_height: i32, width: i32, height: i32) -> bool {
    &&& i32::MIN <= max_width - width <= i32::MAX
    &&& i32::MIN <= max_height - height <= i32::MAX
    &&& i32::MIN <= CONTENT_PADDING + half_toward_zero(max_width - width) <= i32::MAX
    &&& i32::MIN <= CONTENT_PADDING + half_toward_zero(max_height - height) <= i32::MAX
}

/// The top-left corner of a `width` by `height` preview centred in the
/// `max_width` by `max_height` room that starts `CONTENT_PADDING` from the
/// client's corner.
pub fn preview_origin(max_width: i32, max_height: i32, width: i32, height: i32) -> (origin: (
    i32,
    i32,
))
    requires
        origin_fits(max_width, max_height, width, height),
    ensures
        origin.0 == CONTENT_PADDING + half_toward_zero(max_width - width),
        origin.1 == CONTENT_PADDING + half_toward_zero(max_height - height),
{
    let x = CONTENT_PADDING + halve_toward_zero(max_width - width);
    let y = CONTENT_PADDING + halve_toward_zero(max_height - height);
    (x, y)
}

/// Whether the byte count of a `width` by `height` capture of four bytes per
/// pixel, `width * height * 4` computed in `i32`, never overflows.
pub open spec fn capture_fits(width: i32, height: i32) -> bool {
    &&& i32::MIN <= width * height <= i32::MAX
    &&& i32::MIN <= width * height * 4 <= i32::MAX
}

/// The number of bytes of a `width` by `height` capture of four bytes per
/// pixel: `width * height * 4`, converted to `usize` (a negative product
/// wraps around, as `as usize` does).
pub fn capture_buffer_len(width: i32, height: i32) -> (len: usize)
    requires
        capture_fits(width, height),
    ensures
        len == (width * height * 4) as usize,
        width * height * 4 >= 0 ==> len == width * height * 4,
{
    let area = width * height;
    let bytes = area * 4;
    bytes as usize
}

/// Moving the window by `(dx, dy)` and then by `(-dx, -dy)` brings its
/// top-left corner back to where it was.
pub proof fn lemma_move_round_trip(rect: Rect, dx: i32, dy: i32)
    requires
        move_fits(rect, dx, dy),
        dx != i32::MIN,
        dy != i32::MIN,
    ensures
        move_fits(
            Rect {
                left: (rect.left + dx) as i32,
                top: (rect.top + dy) as i32,
                right: rect.right,
                bottom: rect.bottom,
            },
            (-dx) as i32,
            (-dy) as i32,
        ),
        (rect.left + dx) + (-dx) == rect.left,
        (rect.top + dy) + (-dy) == rect.top,
{
}

/// A resize never leaves a side below `MIN_WINDOW_SIZE`; growing a side of
/// at least the minimum by `step` and shrinking it by `step` gives it back,
/// and so does shrinking then growing a side of at least the minimum plus `step`.
pub proof fn lemma_resize_round_trip(side: int, step: int, delta: int)
    requires
        step >= 0,
    ensures
        at_least(side + delta, MIN_WINDOW_SIZE as int) >= MIN_WINDOW_SIZE,
        side >= MIN_WINDOW_SIZE ==> at_least(
            at_least(side + step, MIN_WINDOW_SIZE as int) - step,
            MIN_WINDOW_SIZE as int,
        ) == side,
        side >= MIN_WINDOW_SIZE + step ==> at_least(
            at_least(side - step, MIN_WINDOW_SIZE as int) + step,
            MIN_WINDOW_SIZE as int,
        ) == side,
{
}

/// A preview no larger than the room is placed inside it, with the free
/// space split evenly between the two sides (the far side gets any odd pixel).
pub proof fn lemma_preview_inside_room(max_width: i32, max_height: i32, width: i32, height: i32)
    requires
        0 <= width <= max_width,
        0 <= height <= max_height,
    ensures
        origin_fits(max_width, max_height, width, height),
        CONTENT_PADDING <= CONTENT_PADDING + half_toward_zero(max_width - width),
        CONTENT_PADDING + half_toward_zero(max_width - width) + width <= CONTENT_PADDING
            + max_width,
        CONTENT_PADDING <= CONTENT_PADDING + half_toward_zero(max_height - height),
        CONTENT_PADDING + half_toward_zero(max_height - height) + height <= CONTENT_PADDING
            + max_height,
        0 <= (max_width - width - half_toward_zero(max_width - width)) - half_toward_zero(
            max_width - width,
        ) <= 1,
        0 <= (max_height - height - half_toward_zero(max_height - height)) - half_toward_zero(
            max_height - height,
        ) <= 1,
{
}

} // verus!
