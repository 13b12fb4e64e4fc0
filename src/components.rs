use vstd::prelude::*;

use crate::geometry::Point;
use crate::state::State;

use self::{circle::Circle, line::Line, rect::Rect, triangle::Triangle};

pub mod circle;
pub mod line;
pub mod rect;
pub mod triangle;

verus! {

/// The shape tools. `Pointer` is the selection tool: it places nothing.
#[derive(PartialEq, Eq, Structural, Clone, Copy, Debug)]
pub enum ComponentType {
    Pointer,
    Triangle,
    Line,
    Rect,
    Circle,
}

/// Number of clicks that place a shape of the given type.
pub open spec fn arity(t: ComponentType) -> nat {
    match t {
        ComponentType::Triangle => 3,
        ComponentType::Pointer => 0,
        _ => 2,
    }
}

impl ComponentType {
    /// Number of vertices a placer of this type collects.
    pub fn get_vertex_count(&self) -> (r: u32)
        requires
            *self != ComponentType::Pointer,
        ensures
            r == arity(*self),
    {
        match self {
            ComponentType::Triangle => 3,
            ComponentType::Line => 2,
            ComponentType::Rect => 2,
            ComponentType::Circle => 2,
            ComponentType::Pointer => 0,
        }
    }
}

/// A placed shape.
#[derive(PartialEq, Eq, Structural, Clone, Copy, Debug)]
pub enum Component {
    Triangle(Triangle),
    Line(Line),
    Rect(Rect),
    Circle(Circle),
}

/// The world points all lie where shapes can be placed.
pub open spec fn all_in_canvas(vs: Seq<Point>) -> bool {
    forall|i: int| 0 <= i < vs.len() ==> (#[trigger] vs[i]).in_canvas()
}

/// The shape of type `t` placed at world points `vs` under camera `s`.
pub open spec fn built(t: ComponentType, vs: Seq<Point>, s: State) -> Component {
    match t {
        ComponentType::Triangle => Component::Triangle(Triangle::placed(vs, s)),
        ComponentType::Line => Component::Line(Line::placed(vs, s)),
        ComponentType::Rect => Component::Rect(Rect::placed(vs, s)),
        _ => Component::Circle(Circle::placed(vs, s)),
    }
}

/// Preview of a shape of type `t` from the points so far: the shape itself
/// once it has all its points; a triangle with two points shows as a line;
/// otherwise nothing.
pub open spec fn previewed(t: ComponentType, vs: Seq<Point>, s: State) -> Seq<Component> {
    if vs.len() == arity(t) {
        seq![built(t, vs, s)]
    } else if t == ComponentType::Triangle && vs.len() == 2 {
        seq![Component::Line(Line::placed(vs, s))]
    } else {
        seq![]
    }
}

impl ComponentType {
    /// Builds the shape of this type from exactly as many world points as it
    /// takes.
    pub fn build(&self, vertices: &Vec<Point>, state: &State) -> (r: Component)
        requires
            *self != ComponentType::Pointer,
            vertices@.len() == arity(*self),
            all_in_canvas(vertices@),
            state.wf(),
        ensures
            r == built(*self, vertices@, *state),
            r.wf(),
    {
        match self {
            ComponentType::Triangle => Component::Triangle(Triangle::new(vertices, state)),
            ComponentType::Line => Component::Line(Line::new(vertices, state)),
            ComponentType::Rect => Component::Rect(Rect::new(vertices, state)),
            _ => Component::Circle(Circle::new(vertices, state)),
        }
    }

    /// The shapes that preview a shape of this type from `vertices`.
    pub fn preview(&self, vertices: &Vec<Point>, state: &State) -> (r: Vec<Component>)
        requires
            *self != ComponentType::Pointer,
            all_in_canvas(vertices@),
            state.wf(),
        ensures
            r@ == previewed(*self, vertices@, *state),
            forall|i: int| 0 <= i < r@.len() ==> (#[trigger] r@[i]).wf(),
    {
        let n = vertices.len();
        if n as u32 == self.get_vertex_count() && n <= 3 {
            vec![self.build(vertices, state)]
        } else if *self == ComponentType::Triangle && n == 2 {
            vec![Component::Line(Line::new(vertices, state))]
        } else {
            Vec::new()
        }
    }
}

impl Component {
    pub open spec fn wf(self) -> bool {
        match self {
            Component::Triangle(t) => t.wf(),
            Component::Line(l) => l.wf(),
            Component::Rect(r) => r.wf(),
            Component::Circle(c) => c.wf(),
        }
    }

    /// The point-in-shape test of each variant, for world point `q` seen in
    /// the screen space the shape was placed in.
    pub open spec fn hit(self, q: Point) -> bool {
        match self {
            Component::Triangle(t) => t.hit(q),
            Component::Line(l) => l.hit(q),
            Component::Rect(r) => r.hit(q),
            Component::Circle(c) => c.hit(q),
        }
    }

    pub open spec fn highlighted(self) -> bool {
        match self {
            Component::Triangle(t) => t.highlighted,
            Component::Line(l) => l.highlighted,
            Component::Rect(r) => r.highlighted,
            Component::Circle(c) => c.highlighted,
        }
    }

    /// The same shape with its highlight set to `h`.
    pub open spec fn with_highlight(self, h: bool) -> Component {
        match self {
            Component::Triangle(t) => Component::Triangle(Triangle { highlighted: h, ..t }),
            Component::Line(l) => Component::Line(Line { highlighted: h, ..l }),
            Component::Rect(r) => Component::Rect(Rect { highlighted: h, ..r }),
            Component::Circle(c) => Component::Circle(Circle { highlighted: h, ..c }),
        }
    }

    pub fn component_type(&self) -> (r: ComponentType)
        ensures
            r == match *self {
                Component::Triangle(_) => ComponentType::Triangle,
                Component::Line(_) => ComponentType::Line,
                Component::Rect(_) => ComponentType::Rect,
                Component::Circle(_) => ComponentType::Circle,
            },
    {
        match self {
            Component::Triangle(_) => ComponentType::Triangle,
            Component::Line(_) => ComponentType::Line,
            Component::Rect(_) => ComponentType::Rect,
            Component::Circle(_) => ComponentType::Circle,
        }
    }

    /// Whether world point `mouse_pos` lies in the shape.
    pub fn hitbox_intersects(&self, mouse_pos: Point) -> (r: bool)
        requires
            self.wf(),
            mouse_pos.in_canvas(),
        ensures
            r == self.hit(mouse_pos),
    {
        match self {
            Component::Triangle(t) => t.hitbox_intersects(mouse_pos),
            Component::Line(l) => l.hitbox_intersects(mouse_pos),
            Component::Rect(r) => r.hitbox_intersects(mouse_pos),
            Component::Circle(c) => c.hitbox_intersects(mouse_pos),
        }
    }

    pub fn is_highlighted(&self) -> (r: bool)
        ensures
            r == self.highlighted(),
    {
        match self {
            Component::Triangle(t) => t.highlighted,
            Component::Line(l) => l.highlighted,
            Component::Rect(r) => r.highlighted,
            Component::Circle(c) => c.highlighted,
        }
    }

    pub fn set_highlighted(&mut self, highlighted: bool)
        ensures
            *final(self) == old(self).with_highlight(highlighted),
    {
        match self {
            Component::Triangle(t) => t.highlighted = highlighted,
            Component::Line(l) => l.highlighted = highlighted,
            Component::Rect(r) => r.highlighted = highlighted,
            Component::Circle(c) => c.highlighted = highlighted,
        }
    }
}

} // verus!
