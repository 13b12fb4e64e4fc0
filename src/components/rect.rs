use vstd::prelude::*;

use crate::geometry::{mouse_in_triangle, point_in_triangle, Point, ScreenPoint};
use crate::state::State;

verus! {

/// An axis-aligned filled rectangle given by two opposite corners, held in
/// the screen space of its placement.
#[derive(PartialEq, Eq, Structural, Clone, Copy, Debug)]
pub struct Rect {
    pub from: ScreenPoint,
    pub to: ScreenPoint,
    pub highlighted: bool,
}

impl Rect {
    pub open spec fn wf(self) -> bool {
        self.from.valid() && self.to.valid() && self.from.same_frame(self.to)
    }

    pub open spec fn placed(vs: Seq<Point>, s: State) -> Rect {
        Rect { from: s.screen_of(vs[0]), to: s.screen_of(vs[1]), highlighted: false }
    }

    /// The corner on the vertical through `from` and the horizontal through `to`.
    pub open spec fn corner_from_to(self) -> ScreenPoint {
        ScreenPoint { x: self.from.x, y: self.to.y, ..self.from }
    }

    /// The corner on the vertical through `to` and the horizontal through `from`.
    pub open spec fn corner_to_from(self) -> ScreenPoint {
        ScreenPoint { x: self.to.x, y: self.from.y, ..self.from }
    }

    /// The rectangle has a width and a height.
    pub open spec fn has_area(self) -> bool {
        self.from.x != self.to.x && self.from.y != self.to.y
    }

    /// World point `q`, seen in the rectangle's frame, is inside either of
    /// the two triangles that make up a rectangle with area. A rectangle of
    /// zero width or height holds no point.
    pub open spec fn hit(self, q: Point) -> bool {
        self.has_area() && (mouse_in_triangle(q, self.from, self.corner_from_to(), self.corner_to_from())
            || mouse_in_triangle(q, self.corner_from_to(), self.corner_to_from(), self.to))
    }

    pub fn new(vertices: &Vec<Point>, state: &State) -> (r: Rect)
        requires
            state.wf(),
            vertices@.len() == 2,
            forall|i: int| 0 <= i < vertices@.len() ==> (#[trigger] vertices@[i]).in_canvas(),
        ensures
            r == Rect::placed(vertices@, *state),
            r.wf(),
    {
        Rect {
            from: state.world_space_to_screen_space(vertices[0]),
            to: state.world_space_to_screen_space(vertices[1]),
            highlighted: false,
        }
    }

    /// The triangle list to draw: two triangles sharing the diagonal between
    /// the two derived corners.
    pub fn get_vertices(&self) -> (r: Vec<ScreenPoint>)
        ensures
            r@ == seq![
                self.from,
                self.corner_from_to(),
                self.corner_to_from(),
                self.corner_from_to(),
                self.corner_to_from(),
                self.to,
            ],
    {
        let v2 = ScreenPoint { x: self.from.x, y: self.to.y, ..self.from };
        let v3 = ScreenPoint { x: self.to.x, y: self.from.y, ..self.from };
        vec![self.from, v2, v3, v2, v3, self.to]
    }

    /// Whether world point `mouse_pos` lies inside the rectangle or on its
    /// boundary.
    pub fn hitbox_intersects(&self, mouse_pos: Point) -> (r: bool)
        requires
            self.wf(),
            mouse_pos.in_canvas(),
        ensures
            r == self.hit(mouse_pos),
    {
        if self.from.x == self.to.x || self.from.y == self.to.y {
            return false;
        }
        let v2 = ScreenPoint { x: self.from.x, y: self.to.y, ..self.from };
        let v3 = ScreenPoint { x: self.to.x, y: self.from.y, ..self.from };
        point_in_triangle(mouse_pos, self.from, v2, v3) || point_in_triangle(
            mouse_pos,
            v2,
            v3,
            self.to,
        )
    }
}

} // verus!
