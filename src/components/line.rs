use vstd::prelude::*;

use crate::geometry::{
    lemma_mul_bound,
    scaled_dot,
    scaled_dot_exec,
    Point,
    ScreenPoint,
    DIFF_LIMIT,
    WINDOW_LIMIT,
    WORLD_UNIT,
};
use crate::state::State;

verus! {

/// `2^63`: beyond this a cross product's square exceeds any bound it is
/// compared with.
const CROSS_LIMIT: i128 = 9223372036854775808;

/// A thick segment held in the screen space of its placement: the rectangle
/// whose corners are `from` and `to` moved by one screen unit to either side
/// along the segment's normal.
#[derive(PartialEq, Eq, Structural, Clone, Copy, Debug)]
pub struct Line {
    pub from: ScreenPoint,
    pub to: ScreenPoint,
    pub highlighted: bool,
}

impl Line {
    pub open spec fn wf(self) -> bool {
        self.from.valid() && self.to.valid() && self.from.same_frame(self.to)
    }

    pub open spec fn placed(vs: Seq<Point>, s: State) -> Line {
        Line { from: s.screen_of(vs[0]), to: s.screen_of(vs[1]), highlighted: false }
    }

    /// World point `q`, seen in the segment's frame, lies in its body. With
    /// `d` the segment and `e` the offset of `q` from `from`, in screen
    /// space: `d` is not zero, the projection of `e` on `d` falls within the
    /// segment, and the distance of `q` from the segment's line,
    /// `|d x e| / |d|`, is at most one. Over the common denominators that is
    /// `cross^2 <= WORLD_UNIT^2 * len2`. The region is the union of the two
    /// triangles that draw the body; a segment of length zero has no normal
    /// and holds no point.
    pub open spec fn hit(self, q: Point) -> bool {
        let (w, h) = (self.from.w as int, self.from.h as int);
        let dx = self.to.x - self.from.x;
        let dy = self.to.y - self.from.y;
        let ex = q.x - self.from.x;
        let ey = q.y - self.from.y;
        let len2 = scaled_dot(dx, dy, dx, dy, w, h);
        let dot = scaled_dot(ex, ey, dx, dy, w, h);
        let cross = dx * ey - dy * ex;
        len2 > 0 && 0 <= dot <= len2 && cross * cross <= WORLD_UNIT * WORLD_UNIT * len2
    }

    pub fn new(vertices: &Vec<Point>, state: &State) -> (r: Line)
        requires
            state.wf(),
            vertices@.len() == 2,
            forall|i: int| 0 <= i < vertices@.len() ==> (#[trigger] vertices@[i]).in_canvas(),
        ensures
            r == Line::placed(vertices@, *state),
            r.wf(),
    {
        Line {
            from: state.world_space_to_screen_space(vertices[0]),
            to: state.world_space_to_screen_space(vertices[1]),
            highlighted: false,
        }
    }

    /// Whether world point `mouse_pos` lies in the segment's body.
    pub fn hitbox_intersects(&self, mouse_pos: Point) -> (r: bool)
        requires
            self.wf(),
            mouse_pos.in_canvas(),
        ensures
            r == self.hit(mouse_pos),
    {
        let (w, h) = (self.from.w, self.from.h);
        let (fx, fy) = (self.from.x as i128, self.from.y as i128);
        let dx = self.to.x as i128 - fx;
        let dy = self.to.y as i128 - fy;
        let ex = mouse_pos.x as i128 - fx;
        let ey = mouse_pos.y as i128 - fy;
        let len2 = scaled_dot_exec(dx, dy, dx, dy, w, h);
        let dot = scaled_dot_exec(ex, ey, dx, dy, w, h);
        if !(len2 > 0 && 0 <= dot && dot <= len2) {
            return false;
        }
        proof {
            lemma_mul_bound(dx as int, ey as int, DIFF_LIMIT as int, DIFF_LIMIT as int);
            lemma_mul_bound(dy as int, ex as int, DIFF_LIMIT as int, DIFF_LIMIT as int);
        }
        let cross = dx * ey - dy * ex;
        let ghost bound: int = 2 * (DIFF_LIMIT * DIFF_LIMIT) * (WINDOW_LIMIT * WINDOW_LIMIT);
        assert(WORLD_UNIT * WORLD_UNIT * len2 <= WORLD_UNIT * WORLD_UNIT * bound) by (
        nonlinear_arith)
            requires
                0 < len2 <= bound,
        ;
        let limit = (WORLD_UNIT as i128 * WORLD_UNIT as i128) * len2;
        if cross > CROSS_LIMIT || cross < -CROSS_LIMIT {
            assert(cross * cross > limit) by (nonlinear_arith)
                requires
                    cross > CROSS_LIMIT || cross < -CROSS_LIMIT,
                    limit <= WORLD_UNIT * WORLD_UNIT * bound,
                    bound == 2 * (DIFF_LIMIT * DIFF_LIMIT) * (WINDOW_LIMIT * WINDOW_LIMIT),
            ;
            return false;
        }
        proof {
            lemma_mul_bound(cross as int, cross as int, CROSS_LIMIT as int, CROSS_LIMIT as int);
        }
        cross * cross <= limit
    }
}

} // verus!
