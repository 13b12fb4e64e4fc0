//! The layer of placed shapes: placement through the active tool, selection
//! and the list of shapes to draw.
use vstd::prelude::*;

use crate::components::{built, previewed, Component, ComponentType};
use crate::geometry::Point;
use crate::placer::{click_model, Placer};
use crate::state::{in_pixel_range, pixel_in_range, FrameInput, State};

verus! {

/// Index of the last shape of `cs` that holds `q`: the one drawn on top.
pub open spec fn topmost(cs: Seq<Component>, q: Point) -> Option<int>
    decreases cs.len(),
{
    if cs.len() == 0 {
        None
    } else if cs.last().hit(q) {
        Some(cs.len() - 1)
    } else {
        topmost(cs.drop_last(), q)
    }
}

/// The shapes of `cs` with only the one at `sel` highlighted.
pub open spec fn highlight_only(cs: Seq<Component>, sel: Option<int>) -> Seq<Component> {
    Seq::new(cs.len(), |i: int| cs[i].with_highlight(sel == Some(i)))
}

/// `topmost` finds a shape holding `q` with none above it that holds `q`, and
/// finds nothing only when no shape holds `q`.
pub proof fn lemma_topmost(cs: Seq<Component>, q: Point)
    ensures
        topmost(cs, q) matches Some(i) ==> 0 <= i < cs.len() && cs[i].hit(q) && forall|j: int|
            i < j < cs.len() ==> !(#[trigger] cs[j].hit(q)),
        topmost(cs, q) is None ==> forall|j: int| 0 <= j < cs.len() ==> !(#[trigger] cs[j].hit(q)),
    decreases cs.len(),
{
    if cs.len() > 0 && !cs.last().hit(q) {
        lemma_topmost(cs.drop_last(), q);
        assert forall|j: int| 0 <= j < cs.len() - 1 implies cs[j] == cs.drop_last()[j] by {}
    }
}

/// Selection follows z-order: when shapes at `a` and then `b` both hold `q`,
/// selecting at `q` never picks the earlier one: it picks `b` or a shape
/// drawn above it.
pub proof fn lemma_selection_prefers_later(cs: Seq<Component>, q: Point, a: int, b: int)
    requires
        0 <= a < b < cs.len(),
        cs[a].hit(q),
        cs[b].hit(q),
    ensures
        topmost(cs, q) matches Some(i) && b <= i,
{
    lemma_topmost(cs, q);
}

/// The placed shapes, the active tool's placer if any, and the selection.
#[derive(Debug)]
pub struct ComponentLayer {
    /// Placed shapes, first drawn first.
    pub primitives: Vec<Component>,
    pub placer: Option<Placer>,
    /// Index of the selected shape.
    pub selected: Option<usize>,
}

impl ComponentLayer {
    pub open spec fn wf(&self) -> bool {
        &&& forall|i: int| 0 <= i < self.primitives@.len() ==> (#[trigger] self.primitives@[i]).wf()
        &&& self.placer matches Some(p) ==> p.wf()
        &&& self.selected matches Some(i) ==> i < self.primitives@.len()
        &&& forall|i: int|
            0 <= i < self.primitives@.len() ==> (#[trigger] self.primitives@[i]).highlighted() == (
            self.selected_index() == Some(i))
    }

    pub open spec fn selected_index(&self) -> Option<int> {
        match self.selected {
            Some(i) => Some(i as int),
            None => None,
        }
    }

    /// The active tool's type and the points of its shape in progress.
    pub open spec fn placer_view(&self) -> Option<(ComponentType, Seq<Point>)> {
        match self.placer {
            Some(p) => Some((p.component_type, p.vertices@)),
            None => None,
        }
    }

    /// `self` is `old` after a click at world point `w` fed to the active
    /// placer: the click is recorded, and a shape that it completes is
    /// placed on top of the others.
    pub open spec fn placer_clicked(self, old: ComponentLayer, w: Point, s: State) -> bool {
        old.placer matches Some(p) && {
            let vs = click_model(p.vertices@, p.vertex_count as nat, w);
            &&& self.placer_view() == Some((p.component_type, vs))
            &&& self.primitives@ == (if vs.len() == p.vertex_count {
                old.primitives@.push(built(p.component_type, vs, s))
            } else {
                old.primitives@
            })
            &&& self.selected == old.selected
        }
    }

    /// `self` is `old` after selecting at world point `w`.
    pub open spec fn selected_at(self, old: ComponentLayer, w: Point) -> bool {
        &&& self.selected_index() == topmost(old.primitives@, w)
        &&& self.primitives@ == highlight_only(old.primitives@, self.selected_index())
        &&& self.placer_view() == old.placer_view()
    }

    pub open spec fn same_as(self, old: ComponentLayer) -> bool {
        &&& self.primitives@ == old.primitives@
        &&& self.selected == old.selected
        &&& self.placer_view() == old.placer_view()
    }

    /// A click at window pixel `c` reaches the canvas.
    pub open spec fn click_lands(s: State, c: Point) -> bool {
        pixel_in_range(c) && s.world_of(c).in_canvas()
    }

    /// The empty layer with the selection tool.
    pub fn new() -> (r: ComponentLayer)
        ensures
            r.wf(),
            r.primitives@ == Seq::<Component>::empty(),
            r.placer is None,
            r.selected is None,
    {
        ComponentLayer { primitives: Vec::new(), placer: None, selected: None }
    }

    fn set_selected_highlighted(&mut self, highlighted: bool)
        requires
            old(self).selected matches Some(i) ==> i < old(self).primitives@.len(),
        ensures
            final(self).selected == old(self).selected,
            final(self).placer == old(self).placer,
            final(self).primitives@.len() == old(self).primitives@.len(),
            forall|i: int|
                0 <= i < old(self).primitives@.len() ==> (#[trigger] final(self).primitives@[i]) == (
                if old(self).selected_index() == Some(i) {
                    old(self).primitives@[i].with_highlight(highlighted)
                } else {
                    old(self).primitives@[i]
                }),
    {
        if let Some(i) = self.selected {
            let mut c = self.primitives[i];
            c.set_highlighted(highlighted);
            self.primitives.set(i, c);
        }
    }

    /// Selects the shape drawn on top at world point `mouse_pos` and
    /// highlights it alone; with no shape there, nothing is selected. Each
    /// shape sees the point in the screen space it was placed in.
    pub fn select(&mut self, mouse_pos: Point)
        requires
            old(self).wf(),
            mouse_pos.in_canvas(),
        ensures
            final(self).wf(),
            final(self).selected_index() == topmost(old(self).primitives@, mouse_pos),
            final(self).primitives@ == highlight_only(
                old(self).primitives@,
                final(self).selected_index(),
            ),
            final(self).placer == old(self).placer,
            final(self).selected_at(*old(self), mouse_pos),
    {
        let q = mouse_pos;
        self.set_selected_highlighted(false);
        let ghost cleared = self.primitives@;
        let mut i: usize = self.primitives.len();
        let mut found: Option<usize> = None;
        assert(cleared.take(i as int) == cleared);
        while i > 0 && found.is_none()
            invariant
                i <= self.primitives@.len(),
                self.primitives@ == cleared,
                cleared.len() == old(self).primitives@.len(),
                q == mouse_pos,
                q.in_canvas(),
                forall|k: int| 0 <= k < cleared.len() ==> (#[trigger] cleared[k]).wf(),
                found matches Some(f) ==> f < cleared.len() && topmost(cleared, q) == Some(f as int),
                found is None ==> topmost(cleared, q) == topmost(cleared.take(i as int), q),
            decreases i,
        {
            i = i - 1;
            proof {
                let pre = cleared.take(i + 1);
                assert(pre.drop_last() == cleared.take(i as int));
                assert(pre.last() == cleared[i as int]);
            }
            if self.primitives[i].hitbox_intersects(q) {
                found = Some(i);
            }
        }
        proof {
            if found is None {
                assert(cleared.take(0) == Seq::<Component>::empty());
            }
            assert forall|k: int| 0 <= k < cleared.len() implies cleared[k].hit(q) == old(
                self,
            ).primitives@[k].hit(q) by {}
            lemma_same_hits(cleared, old(self).primitives@, q);
        }
        self.selected = found;
        self.set_selected_highlighted(true);
        proof {
            assert(self.primitives@ =~= highlight_only(old(self).primitives@, self.selected_index()));
        }
    }
}

impl ComponentLayer {
    /// Makes `component_type` the active tool: a fresh placer for a shape
    /// type, none for the selection tool.
    pub fn set_placer(&mut self, component_type: ComponentType)
        requires
            old(self).wf(),
        ensures
            final(self).wf(),
            final(self).primitives@ == old(self).primitives@,
            final(self).selected == old(self).selected,
            final(self).placer_view() == (if component_type == ComponentType::Pointer {
                None
            } else {
                Some((component_type, Seq::<Point>::empty()))
            }),
    {
        self.placer = if component_type == ComponentType::Pointer {
            None
        } else {
            Some(Placer::new(component_type))
        };
    }

    /// The active tool.
    pub fn get_placer_type(&self) -> (r: ComponentType)
        ensures
            r == (match self.placer {
                Some(p) => p.component_type,
                None => ComponentType::Pointer,
            }),
    {
        match &self.placer {
            Some(placer) => placer.get_component_type(),
            None => ComponentType::Pointer,
        }
    }

    pub fn has_placer(&self) -> (r: bool)
        ensures
            r == self.placer is Some,
    {
        self.placer.is_some()
    }

    /// Feeds a click at `world_coords` to the active placer and places the
    /// shape that it completes.
    pub fn click_placer(&mut self, world_coords: Point, state: &State)
        requires
            old(self).wf(),
            old(self).placer is Some,
            state.wf(),
            world_coords.in_canvas(),
        ensures
            final(self).wf(),
            final(self).placer_clicked(*old(self), world_coords, *state),
    {
        let mut placer = self.placer.take().unwrap();
        placer.clicked(world_coords);
        let done = placer.finish(state);
        self.placer = Some(placer);
        if let Some(component) = done {
            self.primitives.push(component);
        }
        proof {
            assert forall|i: int| 0 <= i < self.primitives@.len() implies (
            #[trigger] self.primitives@[i]).highlighted() == (self.selected_index() == Some(i)) by {
                if i < old(self).primitives@.len() {
                    assert(self.primitives@[i] == old(self).primitives@[i]);
                }
            }
        }
    }

    /// Ends the active tool.
    pub fn on_escape(&mut self)
        requires
            old(self).wf(),
        ensures
            final(self).wf(),
            final(self).primitives@ == old(self).primitives@,
            final(self).selected == old(self).selected,
            final(self).placer is None,
    {
        self.set_placer(ComponentType::Pointer);
    }

    /// A left click at window pixel `window_pos`: it goes to the active
    /// placer, or selects when no tool is active. A click outside the pixel
    /// range or off the canvas (beyond `COORD_LIMIT` world coordinates from
    /// the origin) does nothing.
    pub fn on_click(&mut self, window_pos: Point, state: &State)
        requires
            old(self).wf(),
            state.wf(),
        ensures
            final(self).wf(),
            !ComponentLayer::click_lands(*state, window_pos) ==> final(self).same_as(*old(self)),
            ComponentLayer::click_lands(*state, window_pos) && old(self).placer is Some
                ==> final(self).placer_clicked(*old(self), state.world_of(window_pos), *state),
            ComponentLayer::click_lands(*state, window_pos) && old(self).placer is None
                ==> final(self).selected_at(*old(self), state.world_of(window_pos)),
    {
        if !in_pixel_range(&window_pos) {
            return;
        }
        let world = state.window_space_to_world_space(window_pos);
        if !world.is_in_canvas() {
            return;
        }
        if self.has_placer() {
            self.click_placer(world, state);
        } else {
            self.select(world);
        }
    }

    /// The shapes to draw, bottom first: the placed shapes, then the preview
    /// of the active placer with the cursor at window pixel `mouse_pos`. With
    /// the cursor off the canvas (see `on_click`) there is no preview.
    pub fn draw(&self, mouse_pos: Point, state: &State) -> (r: Vec<Component>)
        requires
            self.wf(),
            state.wf(),
        ensures
            r@ == self.primitives@ + (match self.placer {
                Some(p) => if ComponentLayer::click_lands(*state, mouse_pos) {
                    previewed(p.component_type, p.vertices@.push(state.world_of(mouse_pos)), *state)
                } else {
                    Seq::<Component>::empty()
                },
                None => Seq::<Component>::empty(),
            }),
            forall|i: int| 0 <= i < r@.len() ==> (#[trigger] r@[i]).wf(),
    {
        let mut out = self.primitives.clone();
        proof {
            assert(out@ == self.primitives@);
        }
        if let Some(placer) = &self.placer {
            if in_pixel_range(&mouse_pos) {
                let world = state.window_space_to_world_space(mouse_pos);
                if world.is_in_canvas() {
                    let mut preview = placer.get_preview(world, state);
                    out.append(&mut preview);
                    return out;
                }
            }
        }
        proof {
            assert(out@ == self.primitives@ + Seq::<Component>::empty());
        }
        out
    }
}

impl ComponentLayer {
    /// The layer's part of a frame's input, after the camera's: escape ends
    /// the active tool; a left click off the toolbar selects when no tool is
    /// active (with a tool active the camera's part has fed it the click).
    pub fn update_io(&mut self, input: &FrameInput, state: &State)
        requires
            old(self).wf(),
            state.wf(),
        ensures
            final(self).wf(),
            ({
                let after_escape = if input.escape_pressed {
                    None
                } else {
                    old(self).placer_view()
                };
                let selects = input.left_clicked && !input.any_item_hovered && after_escape is None
                    && ComponentLayer::click_lands(*state, input.mouse_pos);
                if selects {
                    &&& final(self).selected_index() == topmost(
                        old(self).primitives@,
                        state.world_of(input.mouse_pos),
                    )
                    &&& final(self).primitives@ == highlight_only(
                        old(self).primitives@,
                        final(self).selected_index(),
                    )
                    &&& final(self).placer is None
                } else {
                    final(self).primitives@ == old(self).primitives@ && final(self).selected
                        == old(self).selected && final(self).placer_view() == after_escape
                }
            }),
    {
        if input.escape_pressed {
            self.on_escape();
        }
        if input.left_clicked && !input.any_item_hovered && !self.has_placer() {
            self.on_click(input.mouse_pos, state);
        }
    }
}

/// Shapes that differ only in highlight have the same top shape at `q`.
proof fn lemma_same_hits(a: Seq<Component>, b: Seq<Component>, q: Point)
    requires
        a.len() == b.len(),
        forall|k: int| 0 <= k < a.len() ==> a[k].hit(q) == b[k].hit(q),
    ensures
        topmost(a, q) == topmost(b, q),
    decreases a.len(),
{
    if a.len() > 0 {
        lemma_same_hits(a.drop_last(), b.drop_last(), q);
    }
}

} // verus!
