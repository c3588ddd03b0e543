//! Window-geometry rules of the move and resize gestures.
//!
//! Rectangles are in physical screen pixels: a top-left origin plus a size.
//! Every function here is total on the inputs its `requires` admits, and those
//! inputs are exactly the ones on which no intermediate `i32` overflows.

use vstd::prelude::*;

verus! {

/// A window rectangle: top-left origin plus size, in physical screen pixels.
#[derive(Clone, Copy, PartialEq, Eq, Debug, Structural)]
pub struct Rect {
    pub x: i32,
    pub y: i32,
    pub w: i32,
    pub h: i32,
}

/// Which edges of the window follow the cursor during a resize gesture.
///
/// A horizontal pair (`left`/`right`) and a vertical pair (`top`/`bottom`) are
/// mutually exclusive: at most one of each is set by
/// [`resize_edges_for_point`].
#[derive(Clone, Copy, PartialEq, Eq, Debug, Structural)]
pub struct ResizeEdges {
    pub left: bool,
    pub right: bool,
    pub top: bool,
    pub bottom: bool,
}

/// Minimum width and height enforced on a resized axis, so a window can never
/// be collapsed to nothing (or inverted) by an aggressive drag.
pub const MIN_SIZE: i32 = 80;

/// `v` is representable as an `i32`.
pub open spec fn fits_i32(v: int) -> bool {
    i32::MIN <= v <= i32::MAX
}

/// The edge set with nothing selected.
pub open spec fn no_edges() -> ResizeEdges {
    ResizeEdges { left: false, right: false, top: false, bottom: false }
}

/// The bottom-right corner: right and bottom edges follow the cursor.
pub open spec fn bottom_right_edges() -> ResizeEdges {
    ResizeEdges { left: false, right: true, top: false, bottom: true }
}

impl ResizeEdges {
    /// At most one edge of each axis is selected.
    pub open spec fn exclusive(self) -> bool {
        !(self.left && self.right) && !(self.top && self.bottom)
    }

    /// Some edge is selected.
    pub open spec fn any(self) -> bool {
        self.left || self.right || self.top || self.bottom
    }
}

impl Default for ResizeEdges {
    /// No edge selected.
    fn default() -> (r: Self)
        ensures
            r == no_edges(),
    {
        ResizeEdges { left: false, right: false, top: false, bottom: false }
    }
}

impl Rect {
    /// Build a rect from left/top/right/bottom edges (as a window-rectangle
    /// query returns them). The size is not normalised: `right < left` gives
    /// a negative width.
    pub fn from_ltrb(left: i32, top: i32, right: i32, bottom: i32) -> (r: Self)
        requires
            fits_i32(right - left),
            fits_i32(bottom - top),
        ensures
            r.x == left,
            r.y == top,
            r.w == right - left,
            r.h == bottom - top,
            r.x + r.w == right,
            r.y + r.h == bottom,
    {
        Rect { x: left, y: top, w: right - left, h: bottom - top }
    }
}

/// Which third of `size` the offset `pos` falls in: 0 (first), 1 (middle) or
/// 2 (last). The offset is first clamped into the window; a window of no
/// positive size counts as the middle band.
pub open spec fn band_of(pos: int, size: int) -> int {
    if size <= 0 {
        1
    } else {
        let p = if pos < 0 {
            0
        } else if pos > size - 1 {
            size - 1
        } else {
            pos
        };
        if p < size / 3 {
            0
        } else if p < 2 * size / 3 {
            1
        } else {
            2
        }
    }
}

/// The edges selected by a grab in column `col` and row `row` of the 3x3 grid:
/// outer columns and rows select their edge, and the dead centre selects the
/// bottom-right corner.
pub open spec fn edges_for_bands(col: int, row: int) -> ResizeEdges {
    if col == 1 && row == 1 {
        bottom_right_edges()
    } else {
        ResizeEdges { left: col == 0, right: col == 2, top: row == 0, bottom: row == 2 }
    }
}

/// The grab at `(px, py)` on `win` computes without overflow.
pub open spec fn grab_in_range(win: Rect, px: int, py: int) -> bool {
    &&& fits_i32(px - win.x)
    &&& fits_i32(py - win.y)
    &&& (win.w > 0 ==> fits_i32(2 * win.w))
    &&& (win.h > 0 ==> fits_i32(2 * win.h))
}

/// The edges that a resize grab at `(px, py)` on `win` drags.
pub open spec fn grab_edges(win: Rect, px: int, py: int) -> ResizeEdges {
    edges_for_bands(band_of(px - win.x, win.w as int), band_of(py - win.y, win.h as int))
}

/// Decide which edges to drag for a resize, based on which 3x3 region of the
/// window the cursor grabbed.
///
/// * Outer columns/rows drag the corresponding edge (or corner when both axes
///   are outer).
/// * A middle band on one axis means that axis is not resized.
/// * The dead-centre region maps to the bottom-right corner, so a centre grab
///   behaves exactly like grabbing that corner.
pub fn resize_edges_for_point(win: Rect, px: i32, py: i32) -> (e: ResizeEdges)
    requires
        grab_in_range(win, px as int, py as int),
    ensures
        e == grab_edges(win, px as int, py as int),
        e.exclusive(),
        e.any(),
        band_of(px - win.x, win.w as int) == 1 && band_of(py - win.y, win.h as int) == 1 ==> e
            == edges_for_bands(2, 2),
{
    let col = band(px - win.x, win.w);
    let row = band(py - win.y, win.h);

    let mut e = ResizeEdges::default();
    match col {
        0 => e.left = true,
        2 => e.right = true,
        _ => {},
    }
    match row {
        0 => e.top = true,
        2 => e.bottom = true,
        _ => {},
    }

    // Dead centre: no edge selected on either axis -> bottom-right corner.
    if !e.left && !e.right && !e.top && !e.bottom {
        e.right = true;
        e.bottom = true;
    }
    proof {
        lemma_band_range(px - win.x, win.w as int);
        lemma_band_range(py - win.y, win.h as int);
    }
    e
}

/// Every band is 0, 1 or 2.
pub proof fn lemma_band_range(pos: int, size: int)
    ensures
        0 <= band_of(pos, size) <= 2,
{
}

/// A cursor outside the window is clamped to the nearest band: left of (or
/// above) a window of at least three pixels is the first band, right of (or
/// below) any window of positive size is the last band.
pub proof fn lemma_band_clamps_outside(pos: int, size: int)
    ensures
        pos < 0 && size >= 3 ==> band_of(pos, size) == 0,
        pos >= size && size > 0 ==> band_of(pos, size) == 2,
{
}

/// Moving the cursor right (or down) never moves it to an earlier band.
pub proof fn lemma_band_monotone(p1: int, p2: int, size: int)
    requires
        p1 <= p2,
    ensures
        band_of(p1, size) <= band_of(p2, size),
{
}

/// Band classifier returning 0 (first third), 1 (middle third) or 2 (last
/// third) for `pos` within `size`.
fn band(pos: i32, size: i32) -> (b: i32)
    requires
        size > 0 ==> fits_i32(2 * size),
    ensures
        b == band_of(pos as int, size as int),
{
    if size <= 0 {
        return 1;
    }
    let p = if pos < 0 {
        0
    } else if pos > size - 1 {
        size - 1
    } else {
        pos
    };
    if p < size / 3 {
        0
    } else if p < 2 * size / 3 {
        1
    } else {
        2
    }
}

/// The move of `win` by `(dx, dy)` computes without overflow.
pub open spec fn move_in_range(win: Rect, dx: int, dy: int) -> bool {
    fits_i32(win.x + dx) && fits_i32(win.y + dy)
}

/// `win` translated by `(dx, dy)`, size unchanged.
pub open spec fn moved_rect(win: Rect, dx: int, dy: int) -> Rect {
    Rect { x: (win.x + dx) as i32, y: (win.y + dy) as i32, w: win.w, h: win.h }
}

/// New rectangle after a move gesture: the window is translated by the cursor
/// delta, keeping its size.
pub fn moved(win: Rect, dx: i32, dy: i32) -> (r: Rect)
    requires
        move_in_range(win, dx as int, dy as int),
    ensures
        r == moved_rect(win, dx as int, dy as int),
        r.x == win.x + dx,
        r.y == win.y + dy,
        r.w == win.w,
        r.h == win.h,
        dx == 0 && dy == 0 ==> r == win,
{
    Rect { x: win.x + dx, y: win.y + dy, w: win.w, h: win.h }
}

/// One axis of a resize: the new `(position, length)` of an interval that
/// starts at `pos` and has length `len`, when the cursor moved by `d`.
/// `near` drags the start edge (the far end stays anchored), `far` drags the
/// end edge (the start stays anchored); a dragged length never drops below
/// [`MIN_SIZE`].
pub open spec fn axis_after(pos: int, len: int, d: int, near: bool, far: bool) -> (int, int) {
    if near {
        let end = pos + len;
        let np = if pos + d < end - MIN_SIZE {
            pos + d
        } else {
            end - MIN_SIZE
        };
        (np, end - np)
    } else if far {
        (
            pos,
            if len + d > MIN_SIZE {
                len + d
            } else {
                MIN_SIZE as int
            },
        )
    } else {
        (pos, len)
    }
}

/// One axis of a resize computes without overflow.
pub open spec fn axis_in_range(pos: int, len: int, d: int, near: bool, far: bool) -> bool {
    if near {
        &&& fits_i32(pos + len)
        &&& fits_i32(pos + d)
        &&& fits_i32(pos + len - MIN_SIZE)
        &&& fits_i32(axis_after(pos, len, d, near, far).1)
    } else if far {
        fits_i32(len + d)
    } else {
        true
    }
}

/// The resize of `win` by `(dx, dy)` along `edges` computes without overflow.
pub open spec fn resize_in_range(win: Rect, edges: ResizeEdges, dx: int, dy: int) -> bool {
    axis_in_range(win.x as int, win.w as int, dx, edges.left, edges.right) && axis_in_range(
        win.y as int,
        win.h as int,
        dy,
        edges.top,
        edges.bottom,
    )
}

/// `win` after the edges in `edges` followed the cursor delta `(dx, dy)`.
pub open spec fn resized_rect(win: Rect, edges: ResizeEdges, dx: int, dy: int) -> Rect {
    let hx = axis_after(win.x as int, win.w as int, dx, edges.left, edges.right);
    let vy = axis_after(win.y as int, win.h as int, dy, edges.top, edges.bottom);
    Rect { x: hx.0 as i32, y: vy.0 as i32, w: hx.1 as i32, h: vy.1 as i32 }
}

fn resize_axis(pos: i32, len: i32, d: i32, near: bool, far: bool) -> (r: (i32, i32))
    requires
        axis_in_range(pos as int, len as int, d as int, near, far),
    ensures
        r.0 == axis_after(pos as int, len as int, d as int, near, far).0,
        r.1 == axis_after(pos as int, len as int, d as int, near, far).1,
{
    if near {
        // The far edge stays fixed; the near edge moves.
        let end = pos + len;
        let limit = end - MIN_SIZE;
        let np = if pos + d < limit {
            pos + d
        } else {
            limit
        };
        (np, end - np)
    } else if far {
        let grown = len + d;
        (
            pos,
            if grown > MIN_SIZE {
                grown
            } else {
                MIN_SIZE
            },
        )
    } else {
        (pos, len)
    }
}

/// New rectangle after a resize gesture. The edges marked in `edges` follow the
/// cursor delta; the opposite edges stay anchored. A resized axis is clamped to
/// [`MIN_SIZE`] without moving the anchored edge. `left` takes precedence over
/// `right`, and `top` over `bottom`.
pub fn resized(win: Rect, edges: ResizeEdges, dx: i32, dy: i32) -> (r: Rect)
    requires
        resize_in_range(win, edges, dx as int, dy as int),
    ensures
        r == resized_rect(win, edges, dx as int, dy as int),
        edges.left ==> r.x + r.w == win.x + win.w && r.w >= MIN_SIZE && r.x <= win.x + dx,
        !edges.left && edges.right ==> r.x == win.x && r.w >= MIN_SIZE && r.w >= win.w + dx,
        !edges.left && !edges.right ==> r.x == win.x && r.w == win.w,
        edges.top ==> r.y + r.h == win.y + win.h && r.h >= MIN_SIZE && r.y <= win.y + dy,
        !edges.top && edges.bottom ==> r.y == win.y && r.h >= MIN_SIZE && r.h >= win.h + dy,
        !edges.top && !edges.bottom ==> r.y == win.y && r.h == win.h,
        edges == no_edges() ==> r == win,
{
    let (x, w) = resize_axis(win.x, win.w, dx, edges.left, edges.right);
    let (y, h) = resize_axis(win.y, win.h, dy, edges.top, edges.bottom);
    Rect { x, y, w, h }
}

/// Dragging outward enlarges and dragging inward shrinks: with the far edge
/// dragged, the length never shrinks as the delta grows; with the near edge
/// dragged, it never grows as the delta grows; with neither, the axis does not
/// depend on the delta at all.
pub proof fn lemma_resize_monotone(pos: int, len: int, d1: int, d2: int, near: bool, far: bool)
    requires
        d1 <= d2,
    ensures
        near ==> axis_after(pos, len, d1, near, far).1 >= axis_after(pos, len, d2, near, far).1,
        !near && far ==> axis_after(pos, len, d1, near, far).1 <= axis_after(
            pos,
            len,
            d2,
            near,
            far,
        ).1,
        !near && !far ==> axis_after(pos, len, d1, near, far) == axis_after(
            pos,
            len,
            d2,
            near,
            far,
        ),
{
}

/// The window rectangle that a drag of `orig` by `(dx, dy)` gives: a resize
/// along `edges` when `resize`, a move otherwise.
pub open spec fn drag_rect(orig: Rect, edges: ResizeEdges, resize: bool, dx: int, dy: int) -> Rect {
    if resize {
        resized_rect(orig, edges, dx, dy)
    } else {
        moved_rect(orig, dx, dy)
    }
}

/// The drag of `orig` by `(dx, dy)` computes without overflow.
pub open spec fn drag_in_range(orig: Rect, edges: ResizeEdges, resize: bool, dx: int, dy: int) -> bool {
    if resize {
        resize_in_range(orig, edges, dx, dy)
    } else {
        move_in_range(orig, dx, dy)
    }
}

/// New window rectangle for an in-progress drag, given the cursor delta from the
/// drag's start point. `resize` selects resize vs move semantics.
pub fn drag_result(orig: Rect, edges: ResizeEdges, resize: bool, dx: i32, dy: i32) -> (r: Rect)
    requires
        drag_in_range(orig, edges, resize, dx as int, dy as int),
    ensures
        r == drag_rect(orig, edges, resize, dx as int, dy as int),
{
    if resize {
        resized(orig, edges, dx, dy)
    } else {
        moved(orig, dx, dy)
    }
}

/// `v` lies within the `i32` range.
fn fits_i32_exec(v: i64) -> (r: bool)
    ensures
        r == fits_i32(v as int),
{
    -2147483648i64 <= v && v <= 2147483647i64
}

/// Whether a resize grab at `(px, py)` on `win` computes without overflow,
/// that is, whether [`resize_edges_for_point`] accepts it.
pub fn grab_fits(win: Rect, px: i32, py: i32) -> (r: bool)
    ensures
        r == grab_in_range(win, px as int, py as int),
{
    fits_i32_exec(px as i64 - win.x as i64) && fits_i32_exec(py as i64 - win.y as i64) && (win.w
        <= 0 || fits_i32_exec(2 * (win.w as i64))) && (win.h <= 0 || fits_i32_exec(
        2 * (win.h as i64),
    ))
}

fn axis_fits(pos: i32, len: i32, d: i32, near: bool, far: bool) -> (r: bool)
    ensures
        r == axis_in_range(pos as int, len as int, d as int, near, far),
{
    if near {
        let end: i64 = pos as i64 + len as i64;
        let moved_start: i64 = pos as i64 + d as i64;
        let limit: i64 = end - (MIN_SIZE as i64);
        let np: i64 = if moved_start < limit {
            moved_start
        } else {
            limit
        };
        fits_i32_exec(end) && fits_i32_exec(moved_start) && fits_i32_exec(limit) && fits_i32_exec(
            end - np,
        )
    } else if far {
        fits_i32_exec(len as i64 + d as i64)
    } else {
        true
    }
}

/// Whether the drag of `orig` by `(dx, dy)` computes without overflow, that
/// is, whether [`drag_result`] accepts it.
pub fn drag_fits(orig: Rect, edges: ResizeEdges, resize: bool, dx: i32, dy: i32) -> (r: bool)
    ensures
        r == drag_in_range(orig, edges, resize, dx as int, dy as int),
{
    if resize {
        axis_fits(orig.x, orig.w, dx, edges.left, edges.right) && axis_fits(
            orig.y,
            orig.h,
            dy,
            edges.top,
            edges.bottom,
        )
    } else {
        fits_i32_exec(orig.x as i64 + dx as i64) && fits_i32_exec(orig.y as i64 + dy as i64)
    }
}

/// Whether a rect can be built from these edges, that is, whether
/// [`Rect::from_ltrb`] accepts them.
pub fn ltrb_fits(left: i32, top: i32, right: i32, bottom: i32) -> (r: bool)
    ensures
        r == (fits_i32(right - left) && fits_i32(bottom - top)),
{
    fits_i32_exec(right as i64 - left as i64) && fits_i32_exec(bottom as i64 - top as i64)
}

} // verus!
