//! The camera: conversions between window pixels, world coordinates and
//! screen space, with pan and cursor-anchored zoom.
//!
//! The zoom is held as its inverse, `scale`: world coordinates per unit of
//! `zoom_coords` (half a pixel). World points and the pan are integers in
//! that same fine unit, so converting a pixel to the world, panning by a
//! drag and anchoring a zoom at the cursor are all exact.
use vstd::prelude::*;

use crate::component_layer::ComponentLayer;
use crate::geometry::{lemma_mul_bound, Point, ScreenPoint, WINDOW_LIMIT, WORLD_UNIT};

verus! {

/// Window size when the program starts.
pub const INITIAL_WINDOW_SIZE: i64 = 1024;

/// Smallest scale: zoom factor 100.
pub const SCALE_MIN: i64 = 100;

/// Largest scale: zoom factor 0.01.
pub const SCALE_MAX: i64 = 1000000;

/// Relative zoom change per wheel notch, in thousandths (0.15).
pub const ZOOM_SENSITIVITY: i64 = 150;

/// Denominator of a zoom step: wheel amounts are in thousandths of a notch
/// and the sensitivity in thousandths, so a step multiplies the zoom factor
/// by `(ZOOM_STEP_UNIT + ZOOM_SENSITIVITY * amount) / ZOOM_STEP_UNIT`.
pub const ZOOM_STEP_UNIT: i64 = 1000000;

/// Largest magnitude of a pan offset coordinate, in world coordinates.
pub const TRANSLATION_LIMIT: i64 = 1125899906842624;

/// Largest magnitude of a window position or drag distance, in pixels.
pub const PIXEL_LIMIT: i64 = 1048576;

/// Largest magnitude of a `zoom_coords` value or a drag in world units at
/// zoom 1.
pub const OFFSET_LIMIT: i64 = 4194304;

/// Camera state: the window size, the pan offset and the zoom.
#[derive(Clone, Copy, Debug)]
pub struct State {
    pub window_width: i64,
    pub window_height: i64,
    pub is_right_click_dragging: bool,
    /// World-space pan offset.
    pub translation: Point,
    /// The inverse of the zoom factor: world coordinates per unit of
    /// `zoom_coords`. The zoom factor is `WORLD_UNIT / scale`.
    pub scale: i64,
}

/// `a / b` rounded toward negative infinity; in specifications `/` on `int`
/// with a positive divisor is exactly that.
pub fn floor_div(a: i128, b: i128) -> (r: i128)
    requires
        b > 0,
    ensures
        r == a / b,
{
    if a >= 0 {
        let q = a / b;
        proof {
            assert(q == a / b);
        }
        q
    } else {
        let n = -(a + 1);
        let q = n / b;
        proof {
            assert(n >= 0);
            vstd::arithmetic::div_mod::lemma_fundamental_div_mod(n as int, b as int);
            vstd::arithmetic::div_mod::lemma_fundamental_div_mod(a as int, b as int);
            let qa = a / b;
            let ra = a % b;
            let qn = n / b;
            let rn = n % b;
            assert(a == -n - 1);
            assert(a == (-qn - 1) * b + (b - 1 - rn)) by (nonlinear_arith)
                requires
                    n == b * qn + rn,
                    a == -n - 1,
            ;
            assert(0 <= b - 1 - rn < b);
            vstd::arithmetic::div_mod::lemma_fundamental_div_mod_converse(
                a as int,
                b as int,
                -qn - 1,
                b - 1 - rn,
            );
        }
        -q - 1
    }
}

pub open spec fn clamp(v: int, lo: int, hi: int) -> int {
    if v < lo {
        lo
    } else if v > hi {
        hi
    } else {
        v
    }
}

pub open spec fn pixel_in_range(c: Point) -> bool {
    -PIXEL_LIMIT <= c.x <= PIXEL_LIMIT && -PIXEL_LIMIT <= c.y <= PIXEL_LIMIT
}

/// Whether a window position or pixel distance is within range.
pub fn in_pixel_range(c: &Point) -> (r: bool)
    ensures
        r == pixel_in_range(*c),
{
    -PIXEL_LIMIT <= c.x && c.x <= PIXEL_LIMIT && -PIXEL_LIMIT <= c.y && c.y <= PIXEL_LIMIT
}

/// What the user did during one frame, as the windowing side reports it.
#[derive(PartialEq, Eq, Structural, Clone, Copy, Debug)]
pub struct FrameInput {
    pub left_clicked: bool,
    pub right_clicked: bool,
    pub right_released: bool,
    /// A toolbar element is under the cursor.
    pub any_item_hovered: bool,
    pub escape_pressed: bool,
    /// Cursor position, in window pixels.
    pub mouse_pos: Point,
    /// Distance dragged with the right button since the last frame, in pixels.
    pub right_drag_delta: Point,
    /// Wheel movement, in thousandths of a notch.
    pub mouse_wheel: i64,
}

/// World offset of a pixel distance at zoom 1, in units of `zoom_coords`
/// (world y grows upward).
pub open spec fn drag_spec(c: Point) -> Point {
    Point { x: (2 * c.x) as i64, y: (-(2 * c.y)) as i64 }
}

pub open spec fn offset_in_range(a: Point) -> bool {
    -OFFSET_LIMIT <= a.x <= OFFSET_LIMIT && -OFFSET_LIMIT <= a.y <= OFFSET_LIMIT
}

impl State {
    pub open spec fn wf(self) -> bool {
        1 <= self.window_width <= WINDOW_LIMIT && 1 <= self.window_height <= WINDOW_LIMIT
            && SCALE_MIN <= self.scale <= SCALE_MAX && -TRANSLATION_LIMIT <= self.translation.x
            <= TRANSLATION_LIMIT && -TRANSLATION_LIMIT <= self.translation.y <= TRANSLATION_LIMIT
    }

    /// Offset of window pixel `c` from the window centre, in canvas units at
    /// zoom 1 without pan: `2 * (c - size / 2)` with the y axis flipped.
    pub open spec fn zoom_coords(self, c: Point) -> Point {
        Point {
            x: (2 * c.x - self.window_width) as i64,
            y: (-(2 * c.y - self.window_height)) as i64,
        }
    }

    /// World point under window pixel `c`: `translation + zoom_coords(c) / zoom`.
    pub open spec fn world_of(self, c: Point) -> Point {
        let v = self.zoom_coords(c);
        Point {
            x: (self.translation.x + v.x * self.scale) as i64,
            y: (self.translation.y + v.y * self.scale) as i64,
        }
    }

    /// Screen-space image of world point `p`: `p / window_size`.
    pub open spec fn screen_of(self, p: Point) -> ScreenPoint {
        ScreenPoint { x: p.x, y: p.y, w: self.window_width, h: self.window_height }
    }

    /// Pan offset after moving by `amount` units of `zoom_coords`: the
    /// translation decreases by `amount / zoom`, kept within its limit.
    pub open spec fn translated(self, amount: Point) -> Point {
        Point {
            x: clamp(
                self.translation.x - amount.x * self.scale,
                -TRANSLATION_LIMIT as int,
                TRANSLATION_LIMIT as int,
            ) as i64,
            y: clamp(
                self.translation.y - amount.y * self.scale,
                -TRANSLATION_LIMIT as int,
                TRANSLATION_LIMIT as int,
            ) as i64,
        }
    }

    /// Scale after a wheel movement of `amount` thousandths of a notch: the
    /// zoom factor is multiplied by `1 + 0.15 * notches`, so the scale is
    /// divided by it, rounded down and kept within `SCALE_MIN..=SCALE_MAX`
    /// (zoom 0.01 to 100). A factor that is not positive zooms out as far as
    /// allowed.
    pub open spec fn zoomed(self, amount: int) -> int {
        let den = ZOOM_STEP_UNIT + ZOOM_SENSITIVITY * amount;
        if den <= 0 {
            SCALE_MAX as int
        } else {
            clamp(self.scale * ZOOM_STEP_UNIT / den, SCALE_MIN as int, SCALE_MAX as int)
        }
    }

    /// Pan offset coordinate after the zoom from `scale` to `new_scale`
    /// anchored at `m`: it decreases by
    /// `m * (zoom - new_zoom) / new_zoom / zoom = m * (1 / new_zoom - 1 / zoom)`.
    pub open spec fn anchored(t: int, m: int, scale: int, new_scale: int) -> int {
        clamp(t - m * (new_scale - scale), -TRANSLATION_LIMIT as int, TRANSLATION_LIMIT as int)
    }

    /// Camera after `zoom(amount, m)`.
    pub open spec fn after_zoom(self, amount: int, m: Point) -> State {
        let ns = self.zoomed(amount);
        State {
            translation: Point {
                x: State::anchored(self.translation.x as int, m.x as int, self.scale as int, ns) as i64,
                y: State::anchored(self.translation.y as int, m.y as int, self.scale as int, ns) as i64,
            },
            scale: ns as i64,
            ..self
        }
    }

    /// Camera after a frame's input: right-button drag state, pan by the
    /// drag while dragging, then zoom at the cursor by the wheel.
    pub open spec fn after_input(self, input: FrameInput) -> State {
        let dragging = if input.right_released {
            false
        } else if input.right_clicked && !input.any_item_hovered {
            true
        } else {
            self.is_right_click_dragging
        };
        let s1 = State { is_right_click_dragging: dragging, ..self };
        let s2 = if dragging && pixel_in_range(input.right_drag_delta) {
            State { translation: s1.translated(drag_spec(input.right_drag_delta)), ..s1 }
        } else {
            s1
        };
        if input.mouse_wheel != 0 && pixel_in_range(input.mouse_pos) {
            s2.after_zoom(input.mouse_wheel as int, s2.zoom_coords(input.mouse_pos))
        } else {
            s2
        }
    }
}

/// `v` kept within `[lo, hi]`.
pub fn clamp_exec(v: i128, lo: i64, hi: i64) -> (r: i64)
    requires
        lo <= hi,
    ensures
        r == clamp(v as int, lo as int, hi as int),
{
    if v < lo as i128 {
        lo
    } else if v > hi as i128 {
        hi
    } else {
        v as i64
    }
}

impl State {
    /// Camera at the initial window size, without pan, at zoom 1.
    pub fn new() -> (r: State)
        ensures
            r.wf(),
            r.window_width == INITIAL_WINDOW_SIZE,
            r.window_height == INITIAL_WINDOW_SIZE,
            !r.is_right_click_dragging,
            r.translation == (Point { x: 0, y: 0 }),
            r.scale == WORLD_UNIT,
    {
        State {
            window_width: INITIAL_WINDOW_SIZE,
            window_height: INITIAL_WINDOW_SIZE,
            is_right_click_dragging: false,
            translation: Point { x: 0, y: 0 },
            scale: WORLD_UNIT,
        }
    }

    /// Records a new window size.
    pub fn update_size(&mut self, width: i64, height: i64)
        requires
            old(self).wf(),
            1 <= width <= WINDOW_LIMIT,
            1 <= height <= WINDOW_LIMIT,
        ensures
            final(self).wf(),
            *final(self) == (State { window_width: width, window_height: height, ..*old(self) }),
    {
        self.window_width = width;
        self.window_height = height;
    }

    /// Pans by `amount_world_space` units of `zoom_coords` (a drag from
    /// `window_space_to_world_space_drag`): the pan offset decreases by
    /// `amount / zoom`.
    pub fn translate(&mut self, amount_world_space: Point)
        requires
            old(self).wf(),
            offset_in_range(amount_world_space),
        ensures
            final(self).wf(),
            *final(self) == (State {
                translation: old(self).translated(amount_world_space),
                ..*old(self)
            }),
    {
        let s = self.scale as i128;
        proof {
            lemma_mul_bound(amount_world_space.x as int, s as int, OFFSET_LIMIT as int, SCALE_MAX as int);
            lemma_mul_bound(amount_world_space.y as int, s as int, OFFSET_LIMIT as int, SCALE_MAX as int);
        }
        let dx = amount_world_space.x as i128 * s;
        let dy = amount_world_space.y as i128 * s;
        let x = clamp_exec(self.translation.x as i128 - dx, -TRANSLATION_LIMIT, TRANSLATION_LIMIT);
        let y = clamp_exec(self.translation.y as i128 - dy, -TRANSLATION_LIMIT, TRANSLATION_LIMIT);
        self.translation = Point { x, y };
    }

    pub fn get_translation(&self) -> (r: Point)
        ensures
            r == self.translation,
    {
        self.translation
    }

    /// The zoom as its inverse: world coordinates per unit of `zoom_coords`.
    pub fn get_scale(&self) -> (r: i64)
        ensures
            r == self.scale,
    {
        self.scale
    }

    pub fn is_right_click_dragging(&self) -> (r: bool)
        ensures
            r == self.is_right_click_dragging,
    {
        self.is_right_click_dragging
    }

    /// Offset of a drag of `coords` pixels in units of `zoom_coords`.
    pub fn window_space_to_world_space_drag(&self, coords: Point) -> (r: Point)
        requires
            pixel_in_range(coords),
        ensures
            r == drag_spec(coords),
            offset_in_range(r),
    {
        Point { x: 2 * coords.x, y: -(2 * coords.y) }
    }

    /// Offset of window pixel `coords` from the window centre, in canvas
    /// units at zoom 1 without pan.
    pub fn window_space_to_world_space_zoom(&self, coords: Point) -> (r: Point)
        requires
            self.wf(),
            pixel_in_range(coords),
        ensures
            r == self.zoom_coords(coords),
            offset_in_range(r),
    {
        Point { x: 2 * coords.x - self.window_width, y: -(2 * coords.y - self.window_height) }
    }

    /// World point under window pixel `coords`.
    pub fn window_space_to_world_space(&self, coords: Point) -> (r: Point)
        requires
            self.wf(),
            pixel_in_range(coords),
        ensures
            r == self.world_of(coords),
    {
        let v = self.window_space_to_world_space_zoom(coords);
        let s = self.scale as i128;
        proof {
            lemma_mul_bound(v.x as int, s as int, OFFSET_LIMIT as int, SCALE_MAX as int);
            lemma_mul_bound(v.y as int, s as int, OFFSET_LIMIT as int, SCALE_MAX as int);
        }
        let ox = v.x as i128 * s;
        let oy = v.y as i128 * s;
        Point { x: (self.translation.x as i128 + ox) as i64, y: (self.translation.y as i128 + oy) as i64 }
    }

    /// Zooms by a wheel movement of `amount` thousandths of a notch, keeping
    /// the world point under the cursor in place: the pan offset first moves
    /// by `mouse_world_position * (zoom - new_zoom) / new_zoom`, where
    /// `mouse_world_position` is the cursor's `zoom_coords`. The zoom factor
    /// is kept between 0.01 and 100, and the pan offset within its limit.
    pub fn zoom(&mut self, amount: i64, mouse_world_position: Point)
        requires
            old(self).wf(),
            offset_in_range(mouse_world_position),
        ensures
            final(self).wf(),
            *final(self) == old(self).after_zoom(amount as int, mouse_world_position),
    {
        let s = self.scale as i128;
        proof {
            lemma_mul_bound(ZOOM_SENSITIVITY as int, amount as int, 150, 0x8000_0000_0000_0000);
        }
        let den = ZOOM_STEP_UNIT as i128 + ZOOM_SENSITIVITY as i128 * amount as i128;
        let new_scale = if den <= 0 {
            SCALE_MAX
        } else {
            clamp_exec(floor_div(s * ZOOM_STEP_UNIT as i128, den), SCALE_MIN, SCALE_MAX)
        };
        let ds = new_scale as i128 - s;
        proof {
            lemma_mul_bound(mouse_world_position.x as int, ds as int, OFFSET_LIMIT as int, SCALE_MAX as int);
            lemma_mul_bound(mouse_world_position.y as int, ds as int, OFFSET_LIMIT as int, SCALE_MAX as int);
        }
        let ox = mouse_world_position.x as i128 * ds;
        let oy = mouse_world_position.y as i128 * ds;
        let x = clamp_exec(self.translation.x as i128 - ox, -TRANSLATION_LIMIT, TRANSLATION_LIMIT);
        let y = clamp_exec(self.translation.y as i128 - oy, -TRANSLATION_LIMIT, TRANSLATION_LIMIT);
        self.translation = Point { x, y };
        self.scale = new_scale;
    }

    /// The camera's part of a frame's input. A left click off the toolbar
    /// while a tool is active goes to its placer; the right button drags the
    /// view; the wheel zooms at the cursor. Positions out of range are
    /// ignored.
    pub fn update_input(&mut self, input: &FrameInput, component_storage: &mut ComponentLayer)
        requires
            old(self).wf(),
            old(component_storage).wf(),
        ensures
            final(self).wf(),
            *final(self) == old(self).after_input(*input),
            final(component_storage).wf(),
            if input.left_clicked && !input.any_item_hovered && old(component_storage).placer is Some
                && ComponentLayer::click_lands(*old(self), input.mouse_pos) {
                final(component_storage).placer_clicked(
                    *old(component_storage),
                    old(self).world_of(input.mouse_pos),
                    *old(self),
                )
            } else {
                final(component_storage).same_as(*old(component_storage))
            },
    {
        if input.right_clicked && !input.any_item_hovered {
            self.is_right_click_dragging = true;
        }
        if input.right_released {
            self.is_right_click_dragging = false;
        }
        if input.left_clicked && !input.any_item_hovered && component_storage.has_placer() {
            component_storage.on_click(input.mouse_pos, self);
        }
        if self.is_right_click_dragging && in_pixel_range(&input.right_drag_delta) {
            let world_coords = self.window_space_to_world_space_drag(input.right_drag_delta);
            self.translate(world_coords);
        }
        if input.mouse_wheel != 0 && in_pixel_range(&input.mouse_pos) {
            let world_coords = self.window_space_to_world_space_zoom(input.mouse_pos);
            self.zoom(input.mouse_wheel, world_coords);
        }
    }

    /// Screen-space image of world point `coords` under the current window size.
    pub fn world_space_to_screen_space(&self, coords: Point) -> (r: ScreenPoint)
        requires
            self.wf(),
            coords.in_canvas(),
        ensures
            r == self.screen_of(coords),
            r.valid(),
    {
        ScreenPoint { x: coords.x, y: coords.y, w: self.window_width, h: self.window_height }
    }
}

/// Zooming keeps the world point under the cursor: for the window pixel `c`
/// under the cursor, zooming by any wheel amount anchored at that pixel's
/// `zoom_coords` leaves the world point under `c` exactly where it was. Pan
/// offsets pushed against their limit are left out.
pub proof fn lemma_zoom_keeps_cursor_point(s: State, c: Point, amount: int)
    requires
        s.wf(),
        pixel_in_range(c),
        ({
            let m = s.zoom_coords(c);
            let ds = s.zoomed(amount) - s.scale;
            let tx = s.translation.x - m.x * ds;
            let ty = s.translation.y - m.y * ds;
            -TRANSLATION_LIMIT <= tx <= TRANSLATION_LIMIT && -TRANSLATION_LIMIT <= ty
                <= TRANSLATION_LIMIT
        }),
    ensures
        s.after_zoom(amount, s.zoom_coords(c)).world_of(c) == s.world_of(c),
{
    let m = s.zoom_coords(c);
    let ns = s.zoomed(amount);
    let s2 = s.after_zoom(amount, m);
    assert(s2.zoom_coords(c) == m);
    assert(m.x * ns - m.x * (ns - s.scale) == m.x * s.scale) by (nonlinear_arith);
    assert(m.y * ns - m.y * (ns - s.scale) == m.y * s.scale) by (nonlinear_arith);
    lemma_mul_bound(m.x as int, s.scale as int, OFFSET_LIMIT as int, SCALE_MAX as int);
    lemma_mul_bound(m.y as int, s.scale as int, OFFSET_LIMIT as int, SCALE_MAX as int);
    lemma_mul_bound(m.x as int, ns, OFFSET_LIMIT as int, SCALE_MAX as int);
    lemma_mul_bound(m.y as int, ns, OFFSET_LIMIT as int, SCALE_MAX as int);
}

/// Panning follows the cursor: after a drag of `d` pixels, the world point
/// under the moved cursor `c + d` is the one that was under `c`. Pan offsets
/// pushed against their limit are left out.
pub proof fn lemma_drag_follows_cursor(s: State, c: Point, d: Point)
    requires
        s.wf(),
        pixel_in_range(c),
        pixel_in_range(d),
        pixel_in_range(Point { x: (c.x + d.x) as i64, y: (c.y + d.y) as i64 }),
        -TRANSLATION_LIMIT <= s.translation.x - drag_spec(d).x * s.scale <= TRANSLATION_LIMIT,
        -TRANSLATION_LIMIT <= s.translation.y - drag_spec(d).y * s.scale <= TRANSLATION_LIMIT,
    ensures
        (State { translation: s.translated(drag_spec(d)), ..s }).world_of(
            Point { x: (c.x + d.x) as i64, y: (c.y + d.y) as i64 },
        ) == s.world_of(c),
{
    let c2 = Point { x: (c.x + d.x) as i64, y: (c.y + d.y) as i64 };
    let s2 = State { translation: s.translated(drag_spec(d)), ..s };
    let v = s.zoom_coords(c);
    let g = drag_spec(d);
    assert(s2.zoom_coords(c2).x == v.x + g.x);
    assert(s2.zoom_coords(c2).y == v.y + g.y);
    assert((v.x + g.x) * s.scale - g.x * s.scale == v.x * s.scale) by (nonlinear_arith);
    assert((v.y + g.y) * s.scale - g.y * s.scale == v.y * s.scale) by (nonlinear_arith);
    lemma_mul_bound(v.x as int, s.scale as int, OFFSET_LIMIT as int, SCALE_MAX as int);
    lemma_mul_bound(v.y as int, s.scale as int, OFFSET_LIMIT as int, SCALE_MAX as int);
    lemma_mul_bound(v.x + g.x, s.scale as int, 2 * OFFSET_LIMIT, SCALE_MAX as int);
    lemma_mul_bound(v.y + g.y, s.scale as int, 2 * OFFSET_LIMIT, SCALE_MAX as int);
}

} // verus!
