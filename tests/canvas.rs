use shape_canvas::component_layer::ComponentLayer;
use shape_canvas::components::circle::Circle;
use shape_canvas::components::line::Line;
use shape_canvas::components::rect::Rect;
use shape_canvas::components::triangle::Triangle;
use shape_canvas::components::{Component, ComponentType};
use shape_canvas::geometry::{point_in_triangle, Point, ScreenPoint};
use shape_canvas::placer::Placer;
use shape_canvas::state::{FrameInput, State};

fn p(x: i64, y: i64) -> Point {
    Point::new(x, y)
}

fn screen(state: &State, x: i64, y: i64) -> ScreenPoint {
    state.world_space_to_screen_space(p(x, y))
}

/// World coordinates per canvas unit.
const U: i64 = 10000;

fn no_input(mouse: Point) -> FrameInput {
    FrameInput {
        left_clicked: false,
        right_clicked: false,
        right_released: false,
        any_item_hovered: false,
        escape_pressed: false,
        mouse_pos: mouse,
        right_drag_delta: p(0, 0),
        mouse_wheel: 0,
    }
}

#[test]
fn vertex_counts() {
    assert_eq!(ComponentType::Triangle.get_vertex_count(), 3);
    assert_eq!(ComponentType::Line.get_vertex_count(), 2);
    assert_eq!(ComponentType::Rect.get_vertex_count(), 2);
    assert_eq!(ComponentType::Circle.get_vertex_count(), 2);
}

#[test]
fn window_to_world_at_start() {
    let s = State::new();
    assert_eq!(s.window_space_to_world_space(p(512, 512)), p(0, 0));
    assert_eq!(s.window_space_to_world_space(p(612, 412)), p(200 * U, 200 * U));
    assert_eq!(s.window_space_to_world_space(p(0, 0)), p(-1024 * U, 1024 * U));
    assert_eq!(s.window_space_to_world_space_zoom(p(612, 412)), p(200, 200));
    assert_eq!(s.window_space_to_world_space_drag(p(3, -4)), p(6, 8));
}

#[test]
fn window_to_world_when_zoomed() {
    let mut s = State::new();
    s.scale = 3333;
    assert_eq!(s.window_space_to_world_space(p(612, 612)), p(666600, -666600));
}

#[test]
fn screen_space_divides_by_window_size() {
    let mut s = State::new();
    s.update_size(800, 600);
    let q = s.world_space_to_screen_space(p(100, -50));
    assert_eq!(q, ScreenPoint { x: 100, y: -50, w: 800, h: 600 });
}

#[test]
fn pan_divides_by_zoom() {
    let mut s = State::new();
    s.translate(p(100, -50));
    assert_eq!(s.get_translation(), p(-100 * U, 50 * U));
    s.scale = 5000;
    s.translate(p(100, -50));
    assert_eq!(s.get_translation(), p(-150 * U, 75 * U));
}

#[test]
fn zoom_one_notch() {
    let mut s = State::new();
    s.zoom(1000, p(200, 200));
    // 10000 / 1.15 = 8695.65
    assert_eq!(s.get_scale(), 8695);
    // pan decreases by 200 * (8695 - 10000)
    assert_eq!(s.get_translation(), p(261000, 261000));
}

#[test]
fn zoom_is_kept_within_limits() {
    let mut s = State::new();
    s.zoom(-100000, p(0, 0));
    assert_eq!(s.get_scale(), 1000000);
    s.scale = 110;
    s.zoom(5000, p(0, 0));
    assert_eq!(s.get_scale(), 100);
}

#[test]
fn zoom_keeps_point_under_cursor() {
    let mut s = State::new();
    let cursor = p(612, 412);
    let before = s.window_space_to_world_space(cursor);
    let anchor = s.window_space_to_world_space_zoom(cursor);
    s.zoom(1000, anchor);
    assert_eq!(before, p(200 * U, 200 * U));
    assert_eq!(s.window_space_to_world_space(cursor), before);

    let cursor = p(100, 900);
    let before = s.window_space_to_world_space(cursor);
    let anchor = s.window_space_to_world_space_zoom(cursor);
    s.zoom(-2500, anchor);
    assert_eq!(s.window_space_to_world_space(cursor), before);
}

#[test]
fn drag_follows_cursor_at_high_zoom() {
    let mut s = State::new();
    s.scale = 100;
    let cursor = p(300, 700);
    for delta in [p(1, 0), p(-1, 0), p(0, 1), p(3, -2)] {
        let before = s.window_space_to_world_space(cursor);
        let drag = s.window_space_to_world_space_drag(delta);
        s.translate(drag);
        let moved = p(cursor.x + delta.x, cursor.y + delta.y);
        assert_eq!(s.window_space_to_world_space(moved), before);
        s.translate(s.window_space_to_world_space_drag(p(-delta.x, -delta.y)));
    }
    assert_eq!(s.get_translation(), p(0, 0));
}

#[test]
fn placer_cycle() {
    let s = State::new();
    let mut placer = Placer::new(ComponentType::Triangle);
    assert_eq!(placer.get_component_type(), ComponentType::Triangle);
    placer.clicked(p(0, 0));
    assert!(placer.finish(&s).is_none());
    placer.clicked(p(100, 0));
    assert!(placer.finish(&s).is_none());
    placer.clicked(p(0, 100));
    assert_eq!(placer.get_click_stage(), 3);
    assert!(matches!(placer.finish(&s), Some(Component::Triangle(_))));
    placer.clicked(p(7, 8));
    assert_eq!(placer.get_click_stage(), 1);
    assert_eq!(placer.vertices, vec![p(7, 8)]);
    assert!(placer.finish(&s).is_none());
}

#[test]
fn rect_round_trip() {
    let s = State::new();
    let mut placer = Placer::new(ComponentType::Rect);
    placer.clicked(p(100, 100));
    placer.clicked(p(200, 200));
    let shape = placer.finish(&s).expect("two clicks finish a rectangle");
    match shape {
        Component::Rect(r) => {
            assert_eq!(r.from, s.world_space_to_screen_space(p(100, 100)));
            assert_eq!(r.to, s.world_space_to_screen_space(p(200, 200)));
            assert!(!r.highlighted);
        }
        _ => panic!("expected a rectangle"),
    }
    assert!(shape.hitbox_intersects(p(150, 150)));
    assert!(!shape.hitbox_intersects(p(0, 0)));
}

#[test]
fn triangle_preview_degenerates_to_line() {
    let s = State::new();
    let mut placer = Placer::new(ComponentType::Triangle);
    assert!(placer.get_preview(p(10, 10), &s).is_empty());
    placer.clicked(p(0, 0));
    let preview = placer.get_preview(p(100, 0), &s);
    assert_eq!(preview.len(), 1);
    assert_eq!(preview[0].component_type(), ComponentType::Line);
    placer.clicked(p(100, 0));
    let preview = placer.get_preview(p(0, 100), &s);
    assert_eq!(preview.len(), 1);
    assert_eq!(preview[0].component_type(), ComponentType::Triangle);
}

#[test]
fn two_point_shapes_preview_only_with_two_points() {
    let s = State::new();
    for t in [ComponentType::Line, ComponentType::Rect, ComponentType::Circle] {
        let mut placer = Placer::new(t);
        assert!(placer.get_preview(p(10, 10), &s).is_empty());
        placer.clicked(p(0, 0));
        let preview = placer.get_preview(p(10, 10), &s);
        assert_eq!(preview.len(), 1);
        assert_eq!(preview[0].component_type(), t);
    }
}

#[test]
fn triangle_edges_are_inside() {
    let s = State::new();
    let t = Triangle::new(&vec![p(0, 0), p(100, 0), p(0, 100)], &s);
    assert!(t.hitbox_intersects(p(50, 0)));
    assert!(t.hitbox_intersects(p(50, 50)));
    assert!(t.hitbox_intersects(p(0, 30)));
    assert!(t.hitbox_intersects(p(100, 0)));
    assert!(t.hitbox_intersects(p(10, 10)));
    assert!(!t.hitbox_intersects(p(51, 50)));
    assert!(!t.hitbox_intersects(p(-1, 10)));
    assert_eq!(t.get_vertices(), vec![screen(&s, 0, 0), screen(&s, 100, 0), screen(&s, 0, 100)]);
}

#[test]
fn point_in_triangle_either_orientation() {
    let s = State::new();
    let (a, b, c) = (screen(&s, 0, 0), screen(&s, 0, 100), screen(&s, 100, 0));
    assert!(point_in_triangle(p(20, 20), a, b, c));
    assert!(point_in_triangle(p(20, 20), a, c, b));
    assert!(!point_in_triangle(p(80, 80), a, b, c));
}

#[test]
fn circle_boundary_is_outside() {
    let s = State::new();
    let c = Circle::new(&vec![p(0, 0), p(300, 400)], &s);
    assert!(!c.hitbox_intersects(p(300, 400)));
    assert!(!c.hitbox_intersects(p(0, 500)));
    assert!(!c.hitbox_intersects(p(-500, 0)));
    assert!(c.hitbox_intersects(p(0, 499)));
    assert!(c.hitbox_intersects(p(0, 0)));
}

#[test]
fn zero_radius_circle_holds_nothing() {
    let s = State::new();
    let c = Circle::new(&vec![p(5, 5), p(5, 5)], &s);
    assert!(!c.hitbox_intersects(p(5, 5)));
}

#[test]
fn line_body_is_one_screen_unit_thick() {
    let s = State::new();
    // one screen unit is the window size in canvas units
    let unit = 1024 * U;
    let l = Line::new(&vec![p(0, 0), p(unit, 0)], &s);
    assert!(l.hitbox_intersects(p(unit / 2, unit - 1000)));
    assert!(l.hitbox_intersects(p(unit / 2, -unit)));
    assert!(l.hitbox_intersects(p(0, 0)));
    assert!(!l.hitbox_intersects(p(unit / 2, unit + 1)));
    assert!(!l.hitbox_intersects(p(-1, 0)));
    assert!(!l.hitbox_intersects(p(unit + 1, 0)));
}

#[test]
fn zero_length_line_holds_nothing() {
    let s = State::new();
    let l = Line::new(&vec![p(5, 5), p(5, 5)], &s);
    assert!(!l.hitbox_intersects(p(5, 5)));
}

#[test]
fn rect_corners_either_way() {
    let s = State::new();
    let r = Rect::new(&vec![p(200, 200), p(100, 100)], &s);
    assert!(r.hitbox_intersects(p(150, 150)));
    assert!(r.hitbox_intersects(p(100, 200)));
    assert!(!r.hitbox_intersects(p(201, 150)));
    let v = r.get_vertices();
    assert_eq!(v.len(), 6);
    assert_eq!(v[1], screen(&s, 200, 100));
    assert_eq!(v[2], screen(&s, 100, 200));
    assert_eq!(v[5], screen(&s, 100, 100));
}

#[test]
fn zero_size_rect_holds_nothing() {
    let s = State::new();
    let r = Rect::new(&vec![p(5, 5), p(5, 5)], &s);
    assert!(!r.hitbox_intersects(p(5, 5)));
    assert!(!r.hitbox_intersects(p(100, -40)));
    let flat = Rect::new(&vec![p(0, 5), p(100, 5)], &s);
    assert!(!flat.hitbox_intersects(p(50, 5)));
    assert!(!flat.hitbox_intersects(p(500, 5)));
    let thin = Rect::new(&vec![p(5, 0), p(5, 100)], &s);
    assert!(!thin.hitbox_intersects(p(5, 50)));
}

#[test]
fn hit_test_keeps_placement_frame() {
    let mut s = State::new();
    let r = Rect::new(&vec![p(100, 100), p(200, 200)], &s);
    s.update_size(2048, 1024);
    assert!(r.hitbox_intersects(p(150, 150)));
    assert!(!r.hitbox_intersects(p(300, 150)));
    let mut layer = ComponentLayer::new();
    layer.primitives.push(Component::Rect(r));
    layer.select(p(150, 150));
    assert_eq!(layer.selected, Some(0));
}

#[test]
fn build_each_type() {
    let s = State::new();
    let two = vec![p(1, 2), p(3, 4)];
    assert!(matches!(ComponentType::Line.build(&two, &s), Component::Line(_)));
    assert!(matches!(ComponentType::Rect.build(&two, &s), Component::Rect(_)));
    assert!(matches!(ComponentType::Circle.build(&two, &s), Component::Circle(_)));
    let three = vec![p(1, 2), p(3, 4), p(5, 6)];
    assert!(matches!(ComponentType::Triangle.build(&three, &s), Component::Triangle(_)));
    assert!(ComponentType::Triangle.preview(&vec![p(1, 2)], &s).is_empty());
}

fn layer_with_two_rects(s: &State) -> ComponentLayer {
    let mut layer = ComponentLayer::new();
    layer.set_placer(ComponentType::Rect);
    layer.click_placer(p(0, 0), s);
    layer.click_placer(p(100, 100), s);
    layer.click_placer(p(50, 50), s);
    layer.click_placer(p(150, 150), s);
    layer
}

#[test]
fn selection_prefers_later_shape() {
    let s = State::new();
    let mut layer = layer_with_two_rects(&s);
    assert_eq!(layer.primitives.len(), 2);
    layer.select(p(75, 75));
    assert_eq!(layer.selected, Some(1));
    assert!(layer.primitives[1].is_highlighted());
    assert!(!layer.primitives[0].is_highlighted());
    layer.select(p(10, 10));
    assert_eq!(layer.selected, Some(0));
    assert!(layer.primitives[0].is_highlighted());
    assert!(!layer.primitives[1].is_highlighted());
    layer.select(p(500, 500));
    assert_eq!(layer.selected, None);
    assert!(!layer.primitives[0].is_highlighted());
    assert!(!layer.primitives[1].is_highlighted());
}

#[test]
fn tool_choice_and_escape() {
    let mut layer = ComponentLayer::new();
    assert!(!layer.has_placer());
    assert_eq!(layer.get_placer_type(), ComponentType::Pointer);
    layer.set_placer(ComponentType::Circle);
    assert!(layer.has_placer());
    assert_eq!(layer.get_placer_type(), ComponentType::Circle);
    layer.set_placer(ComponentType::Pointer);
    assert!(!layer.has_placer());
    layer.set_placer(ComponentType::Line);
    layer.on_escape();
    assert!(!layer.has_placer());
}

#[test]
fn clicks_place_then_select() {
    let s = State::new();
    let mut layer = ComponentLayer::new();
    layer.set_placer(ComponentType::Rect);
    // window (512, 512) is world (0, 0); window (612, 412) is world (200, 200)
    layer.on_click(p(512, 512), &s);
    assert!(layer.primitives.is_empty());
    layer.on_click(p(612, 412), &s);
    assert_eq!(layer.primitives.len(), 1);
    assert_eq!(layer.selected, None);
    layer.on_escape();
    layer.on_click(p(562, 462), &s);
    assert_eq!(layer.selected, Some(0));
    layer.on_click(p(-5000000, 0), &s);
    assert_eq!(layer.selected, Some(0));
}

#[test]
fn draw_lists_preview_last() {
    let s = State::new();
    let mut layer = layer_with_two_rects(&s);
    let list = layer.draw(p(600, 600), &s);
    assert_eq!(list.len(), 2);
    layer.click_placer(p(-100, -100), &s);
    let list = layer.draw(p(600, 600), &s);
    assert_eq!(list.len(), 3);
    assert_eq!(list[0], layer.primitives[0]);
    assert_eq!(list[1], layer.primitives[1]);
    assert_eq!(
        list[2],
        Component::Rect(Rect {
            from: screen(&s, -100, -100),
            to: screen(&s, 176 * U, -176 * U),
            highlighted: false,
        })
    );
    layer.on_escape();
    assert_eq!(layer.draw(p(600, 600), &s).len(), 2);
}

#[test]
fn frame_input_drag_and_wheel() {
    let mut s = State::new();
    let mut layer = ComponentLayer::new();
    let mut input = no_input(p(512, 512));
    input.right_clicked = true;
    input.right_drag_delta = p(10, 5);
    s.update_input(&input, &mut layer);
    assert!(s.is_right_click_dragging());
    assert_eq!(s.get_translation(), p(-20 * U, 10 * U));
    let mut input = no_input(p(512, 512));
    input.right_released = true;
    input.right_drag_delta = p(10, 5);
    s.update_input(&input, &mut layer);
    assert!(!s.is_right_click_dragging());
    assert_eq!(s.get_translation(), p(-20 * U, 10 * U));
    let mut input = no_input(p(512, 512));
    input.mouse_wheel = 1000;
    s.update_input(&input, &mut layer);
    assert_eq!(s.get_scale(), 8695);
    assert_eq!(s.get_translation(), p(-20 * U, 10 * U));
}

#[test]
fn frame_input_routes_clicks() {
    let mut s = State::new();
    let mut layer = ComponentLayer::new();
    layer.set_placer(ComponentType::Line);
    let mut input = no_input(p(512, 512));
    input.left_clicked = true;
    s.update_input(&input, &mut layer);
    layer.update_io(&input, &s);
    let mut input = no_input(p(612, 512));
    input.left_clicked = true;
    s.update_input(&input, &mut layer);
    layer.update_io(&input, &s);
    assert_eq!(layer.primitives.len(), 1);
    assert_eq!(layer.selected, None);
    let mut input = no_input(p(562, 512));
    input.escape_pressed = true;
    input.left_clicked = true;
    s.update_input(&input, &mut layer);
    layer.update_io(&input, &s);
    assert!(!layer.has_placer());
    assert_eq!(layer.primitives.len(), 1);
    assert_eq!(layer.selected, Some(0));
    let mut input = no_input(p(562, 512));
    input.left_clicked = true;
    input.any_item_hovered = true;
    layer.update_io(&input, &s);
    assert_eq!(layer.selected, Some(0));
}

#[test]
fn extreme_coordinates_and_windows() {
    let mut s = State::new();
    s.update_size(16384, 16384);
    let far = 17179869184;
    let l = Line::new(&vec![p(-far, -far), p(far, far)], &s);
    let c = Circle::new(&vec![p(-far, far), p(far, -far)], &s);
    let t = Triangle::new(&vec![p(-far, -far), p(far, -far), p(-far, far)], &s);
    let corner = p(far, -far);
    assert!(!l.hitbox_intersects(corner));
    assert!(!c.hitbox_intersects(corner));
    assert!(t.hitbox_intersects(corner));
    assert!(!t.hitbox_intersects(p(far, far)));
    let centre = p(0, 0);
    assert!(l.hitbox_intersects(centre));
    assert!(c.hitbox_intersects(centre));
    assert!(t.hitbox_intersects(centre));
}

#[test]
fn highlight_is_set_and_cleared() {
    let s = State::new();
    let mut c = ComponentType::Circle.build(&vec![p(0, 0), p(10, 0)], &s);
    assert!(!c.is_highlighted());
    c.set_highlighted(true);
    assert!(c.is_highlighted());
    c.set_highlighted(false);
    assert!(!c.is_highlighted());
}
