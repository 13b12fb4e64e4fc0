//! The multi-click state machine that turns clicks into a shape.
use vstd::prelude::*;

use crate::components::{all_in_canvas, arity, built, previewed, Component, ComponentType};
use crate::geometry::Point;
use crate::state::State;

verus! {

/// Points of the shape in progress after a click at `p`, for a shape of `n`
/// points: a finished shape is dropped before the click counts.
pub open spec fn click_model(vs: Seq<Point>, n: nat, p: Point) -> Seq<Point> {
    if vs.len() == n {
        seq![p]
    } else {
        vs.push(p)
    }
}

/// Points of the shape in progress after clicks at `ps`, in order, on a
/// fresh placer for shapes of `n` points.
pub open spec fn clicks(n: nat, ps: Seq<Point>) -> Seq<Point>
    decreases ps.len(),
{
    if ps.len() == 0 {
        seq![]
    } else {
        click_model(clicks(n, ps.drop_last()), n, ps.last())
    }
}

/// The placer cycle: on a fresh placer of a type of `N` points, `N` clicks
/// leave exactly those points in order, so the shape is ready and `finish`
/// builds it from them; click `N + 1` starts the next shape with itself as
/// its only point.
pub proof fn lemma_placer_cycle(t: ComponentType, ps: Seq<Point>)
    requires
        t != ComponentType::Pointer,
        ps.len() == arity(t) + 1,
    ensures
        clicks(arity(t), ps.take(arity(t) as int)) == ps.take(arity(t) as int),
        clicks(arity(t), ps) == seq![ps[arity(t) as int]],
{
    let n = arity(t);
    lemma_clicks_collect(n, ps, n);
    assert(ps.drop_last() == ps.take(n as int));
}

/// Fewer than `n + 1` clicks on a fresh placer keep every point.
proof fn lemma_clicks_collect(n: nat, ps: Seq<Point>, k: nat)
    requires
        k <= n,
        k <= ps.len(),
    ensures
        clicks(n, ps.take(k as int)) == ps.take(k as int),
    decreases k,
{
    if k > 0 {
        lemma_clicks_collect(n, ps, (k - 1) as nat);
        assert(ps.take(k as int).drop_last() == ps.take(k - 1));
        assert(ps.take(k - 1).push(ps[k - 1]) == ps.take(k as int));
    }
}

/// Collects the clicks of one shape at a time. After the last click of a
/// shape the next click starts the following shape of the same type.
#[derive(Debug)]
pub struct Placer {
    pub component_type: ComponentType,
    pub vertex_count: u32,
    pub click_stage: u32,
    /// World points clicked so far for the shape in progress.
    pub vertices: Vec<Point>,
}

impl Placer {
    pub open spec fn wf(&self) -> bool {
        &&& self.component_type != ComponentType::Pointer
        &&& self.vertex_count == arity(self.component_type)
        &&& self.click_stage <= self.vertex_count
        &&& self.vertices@.len() == self.click_stage
        &&& all_in_canvas(self.vertices@)
    }

    /// All the points of a shape are in.
    pub open spec fn ready(&self) -> bool {
        self.click_stage == self.vertex_count
    }

    /// A placer for shapes of `component_type`, with no clicks yet.
    pub fn new(component_type: ComponentType) -> (r: Placer)
        requires
            component_type != ComponentType::Pointer,
        ensures
            r.wf(),
            r.component_type == component_type,
            r.click_stage == 0,
            r.vertices@ == Seq::<Point>::empty(),
    {
        Placer {
            component_type,
            vertex_count: component_type.get_vertex_count(),
            click_stage: 0,
            vertices: Vec::new(),
        }
    }

    pub fn get_component_type(&self) -> (r: ComponentType)
        ensures
            r == self.component_type,
    {
        self.component_type
    }

    pub fn get_click_stage(&self) -> (r: u32)
        ensures
            r == self.click_stage,
    {
        self.click_stage
    }

    /// Records a click at `world_position`. A click after the last point of a
    /// shape first starts over with no points.
    pub fn clicked(&mut self, world_position: Point)
        requires
            old(self).wf(),
            world_position.in_canvas(),
        ensures
            final(self).wf(),
            final(self).component_type == old(self).component_type,
            final(self).vertices@ == click_model(
                old(self).vertices@,
                old(self).vertex_count as nat,
                world_position,
            ),
            old(self).ready() ==> final(self).click_stage == 1,
            !old(self).ready() ==> final(self).click_stage == old(self).click_stage + 1,
    {
        if self.click_stage == self.vertex_count {
            self.click_stage = 0;
            self.vertices.clear();
        }
        self.click_stage = self.click_stage + 1;
        self.vertices.push(world_position);
        proof {
            assert forall|i: int| 0 <= i < self.vertices@.len() implies (
            #[trigger] self.vertices@[i]).in_canvas() by {
                if i < self.vertices@.len() - 1 {
                    assert(self.vertices@[i] == old(self).vertices@[i]);
                }
            }
        }
    }

    /// The finished shape, once all its points are in.
    pub fn finish(&self, state: &State) -> (r: Option<Component>)
        requires
            self.wf(),
            state.wf(),
        ensures
            r == (if self.ready() {
                Some(built(self.component_type, self.vertices@, *state))
            } else {
                None
            }),
            r matches Some(c) ==> c.wf(),
    {
        if self.click_stage == self.vertex_count {
            Some(self.component_type.build(&self.vertices, state))
        } else {
            None
        }
    }

    /// The shapes that preview the shape in progress with the cursor at
    /// `mouse_pos` as its next point.
    pub fn get_preview(&self, mouse_pos: Point, state: &State) -> (r: Vec<Component>)
        requires
            self.wf(),
            state.wf(),
            mouse_pos.in_canvas(),
        ensures
            r@ == previewed(self.component_type, self.vertices@.push(mouse_pos), *state),
            forall|i: int| 0 <= i < r@.len() ==> (#[trigger] r@[i]).wf(),
    {
        let mut preview_vertices = self.vertices.clone();
        preview_vertices.push(mouse_pos);
        proof {
            assert(preview_vertices@ == self.vertices@.push(mouse_pos));
            assert forall|i: int| 0 <= i < preview_vertices@.len() implies (
            #[trigger] preview_vertices@[i]).in_canvas() by {
                if i < self.vertices@.len() {
                    assert(preview_vertices@[i] == self.vertices@[i]);
                }
            }
        }
        self.component_type.preview(&preview_vertices, state)
    }
}

} // verus!
