use vstd::prelude::*;

use crate::geometry::{scaled_dot, scaled_dot_exec, Point, ScreenPoint};
use crate::state::State;

verus! {

/// A filled disc held in the screen space of its placement: its centre and a
/// point of its circumference, whose distance from the centre is the radius.
#[derive(PartialEq, Eq, Structural, Clone, Copy, Debug)]
pub struct Circle {
    pub center: ScreenPoint,
    pub edge: ScreenPoint,
    pub highlighted: bool,
}

impl Circle {
    pub open spec fn wf(self) -> bool {
        self.center.valid() && self.edge.valid() && self.center.same_frame(self.edge)
    }

    pub open spec fn placed(vs: Seq<Point>, s: State) -> Circle {
        Circle { center: s.screen_of(vs[0]), edge: s.screen_of(vs[1]), highlighted: false }
    }

    /// Squared screen distance from the centre to world point `q` seen in
    /// the circle's frame, times a positive factor of that frame.
    pub open spec fn distance2(self, q: Point) -> int {
        let qx = q.x - self.center.x;
        let qy = q.y - self.center.y;
        scaled_dot(qx, qy, qx, qy, self.center.w as int, self.center.h as int)
    }

    /// Squared radius, times the same factor as `distance2`.
    pub open spec fn radius2(self) -> int {
        let rx = self.edge.x - self.center.x;
        let ry = self.edge.y - self.center.y;
        scaled_dot(rx, ry, rx, ry, self.center.w as int, self.center.h as int)
    }

    /// `q` is strictly closer to the centre than the radius.
    pub open spec fn hit(self, q: Point) -> bool {
        self.distance2(q) < self.radius2()
    }

    pub fn new(vertices: &Vec<Point>, state: &State) -> (r: Circle)
        requires
            state.wf(),
            vertices@.len() == 2,
            forall|i: int| 0 <= i < vertices@.len() ==> (#[trigger] vertices@[i]).in_canvas(),
        ensures
            r == Circle::placed(vertices@, *state),
            r.wf(),
    {
        Circle {
            center: state.world_space_to_screen_space(vertices[0]),
            edge: state.world_space_to_screen_space(vertices[1]),
            highlighted: false,
        }
    }

    /// Whether world point `mouse_pos` lies strictly inside the circle.
    pub fn hitbox_intersects(&self, mouse_pos: Point) -> (r: bool)
        requires
            self.wf(),
            mouse_pos.in_canvas(),
        ensures
            r == self.hit(mouse_pos),
    {
        let (cx, cy) = (self.center.x as i128, self.center.y as i128);
        let rx = self.edge.x as i128 - cx;
        let ry = self.edge.y as i128 - cy;
        let qx = mouse_pos.x as i128 - cx;
        let qy = mouse_pos.y as i128 - cy;
        scaled_dot_exec(qx, qy, qx, qy, self.center.w, self.center.h) < scaled_dot_exec(
            rx,
            ry,
            rx,
            ry,
            self.center.w,
            self.center.h,
        )
    }
}

/// The circumference is outside: a point exactly one radius away from the
/// centre does not hit the circle.
pub proof fn lemma_circumference_outside(c: Circle, q: Point)
    requires
        c.distance2(q) == c.radius2(),
    ensures
        !c.hit(q),
{
}

} // verus!
