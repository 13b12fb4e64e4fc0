use vstd::prelude::*;

use crate::geometry::{mouse_in_triangle, point_in_triangle, Point, ScreenPoint};
use crate::state::State;

verus! {

/// A filled triangle, held in the screen space of its placement.
#[derive(PartialEq, Eq, Structural, Clone, Copy, Debug)]
pub struct Triangle {
    pub v1: ScreenPoint,
    pub v2: ScreenPoint,
    pub v3: ScreenPoint,
    pub highlighted: bool,
}

impl Triangle {
    pub open spec fn wf(self) -> bool {
        self.v1.valid() && self.v2.valid() && self.v3.valid() && self.v1.same_frame(self.v2)
            && self.v1.same_frame(self.v3)
    }

    /// The triangle placed at world points `vs` under camera `s`.
    pub open spec fn placed(vs: Seq<Point>, s: State) -> Triangle {
        Triangle {
            v1: s.screen_of(vs[0]),
            v2: s.screen_of(vs[1]),
            v3: s.screen_of(vs[2]),
            highlighted: false,
        }
    }

    /// World point `q`, seen in the triangle's frame, lies inside or on its
    /// boundary.
    pub open spec fn hit(self, q: Point) -> bool {
        mouse_in_triangle(q, self.v1, self.v2, self.v3)
    }

    pub fn new(vertices: &Vec<Point>, state: &State) -> (r: Triangle)
        requires
            state.wf(),
            vertices@.len() == 3,
            forall|i: int| 0 <= i < vertices@.len() ==> (#[trigger] vertices@[i]).in_canvas(),
        ensures
            r == Triangle::placed(vertices@, *state),
            r.wf(),
    {
        Triangle {
            v1: state.world_space_to_screen_space(vertices[0]),
            v2: state.world_space_to_screen_space(vertices[1]),
            v3: state.world_space_to_screen_space(vertices[2]),
            highlighted: false,
        }
    }

    /// The triangle list to draw: the triangle itself.
    pub fn get_vertices(&self) -> (r: Vec<ScreenPoint>)
        ensures
            r@ == seq![self.v1, self.v2, self.v3],
    {
        vec![self.v1, self.v2, self.v3]
    }

    /// Whether world point `mouse_pos` lies inside the triangle or on its
    /// boundary.
    pub fn hitbox_intersects(&self, mouse_pos: Point) -> (r: bool)
        requires
            self.wf(),
            mouse_pos.in_canvas(),
        ensures
            r == self.hit(mouse_pos),
    {
        point_in_triangle(mouse_pos, self.v1, self.v2, self.v3)
    }
}

} // verus!
