use oblivion::{
    clear, pop_canvas, pop_shader, push_canvas, push_shader, set_shader_data, Canvas, Dimensions,
    GraphicsContext, Image, Mesh, PipelineData, Point2, Render, Rgba, Scalar, Shader, TargetId,
    Transform, Vector2,
};

fn scalar(value: f32) -> Scalar {
    Scalar::from_bits(value.to_bits())
}

fn color(r: f32, g: f32, b: f32, a: f32) -> Rgba {
    Rgba { r: scalar(r), g: scalar(g), b: scalar(b), a: scalar(a) }
}

fn at(x: f32, y: f32) -> Transform {
    Transform { position: Point2 { x: scalar(x), y: scalar(y) }, ..Transform::default() }
}

fn bundle(n: usize) -> PipelineData {
    PipelineData {
        mesh_buffer: n,
        bind_group: n + 1,
        instance_buffer: n + 2,
        object_dimensions: Vector2 { x: scalar(1.0), y: scalar(1.0) },
    }
}

#[test]
fn new_queue_has_one_empty_screen_group() {
    let render = Render::new();
    let groups = render.groups();
    assert_eq!(groups.len(), 1);
    assert_eq!(groups[0].target_id, TargetId::Screen);
    assert_eq!(groups[0].clear_color, None);
    assert!(groups[0].queue.is_empty());
    assert_eq!(render.current_index(), 0);
    assert_eq!(render.total_draw_count(), 0);
}

#[test]
fn default_queue_equals_new_queue() {
    let render = Render::default();
    assert_eq!(render.groups().len(), 1);
    assert_eq!(render.groups()[0].target_id, TargetId::Screen);
    assert_eq!(render.total_draw_count(), 0);
}

#[test]
fn default_target_is_the_screen() {
    assert_eq!(TargetId::default(), TargetId::Screen);
}

#[test]
fn default_transform_has_unit_scale_and_centered_pivot() {
    let t = Transform::default();
    assert_eq!(f32::from_bits(t.position.x.to_bits()), 0.0);
    assert_eq!(f32::from_bits(t.position.y.to_bits()), 0.0);
    assert_eq!(f32::from_bits(t.scale.x.to_bits()), 1.0);
    assert_eq!(f32::from_bits(t.scale.y.to_bits()), 1.0);
    assert_eq!(f32::from_bits(t.rotation.to_bits()), 0.0);
    assert_eq!(f32::from_bits(t.offset.x.to_bits()), 0.5);
    assert_eq!(f32::from_bits(t.offset.y.to_bits()), 0.5);
}

#[test]
fn scalar_constants_are_the_encodings_of_their_values() {
    assert_eq!(Scalar::zero().to_bits(), 0.0f32.to_bits());
    assert_eq!(Scalar::half().to_bits(), 0.5f32.to_bits());
    assert_eq!(Scalar::one().to_bits(), 1.0f32.to_bits());
    assert_eq!(Scalar::from_bits(0x4049_0FDB).to_bits(), 0x4049_0FDB);
}

#[test]
fn draws_are_recorded_in_call_order() {
    let mut render = Render::new();
    for n in 0..5usize {
        render.push_data(bundle(n), n as u32 + 1, at(n as f32, 0.0), 0);
    }
    let queue = &render.groups()[0].queue;
    assert_eq!(queue.len(), 5);
    for n in 0..5usize {
        assert_eq!(queue[n].pipeline_data, bundle(n));
        assert_eq!(queue[n].instance_count, n as u32 + 1);
        assert_eq!(queue[n].instance_data.transform, at(n as f32, 0.0));
        assert_eq!(queue[n].instance_data.pipeline_id, 0);
    }
    assert_eq!(render.total_draw_count(), 5);
}

#[test]
fn draw_uses_the_default_pipeline_without_a_shader() {
    let mut render = Render::new();
    render.push_data(bundle(0), 1, Transform::default(), 1);
    assert_eq!(render.groups()[0].queue[0].instance_data.pipeline_id, 1);
}

#[test]
fn clear_discards_prior_draws_and_sets_the_color() {
    let mut render = Render::new();
    for n in 0..4usize {
        render.push_data(bundle(n), 1, Transform::default(), 0);
    }
    clear(&mut render, color(0.1, 0.2, 0.3, 1.0));
    let group = &render.groups()[0];
    assert!(group.queue.is_empty());
    assert_eq!(group.clear_color, Some(color(0.1, 0.2, 0.3, 1.0)));
    assert_eq!(group.target_id, TargetId::Screen);
    assert_eq!(render.total_draw_count(), 0);
}

#[test]
fn draws_after_clear_are_kept() {
    let mut render = Render::new();
    render.push_data(bundle(0), 1, Transform::default(), 0);
    clear(&mut render, color(0.0, 0.0, 0.0, 1.0));
    render.push_data(bundle(7), 1, Transform::default(), 0);
    let group = &render.groups()[0];
    assert_eq!(group.queue.len(), 1);
    assert_eq!(group.queue[0].pipeline_data, bundle(7));
}

#[test]
fn second_clear_replaces_the_color() {
    let mut render = Render::new();
    clear(&mut render, color(1.0, 0.0, 0.0, 1.0));
    clear(&mut render, color(0.0, 1.0, 0.0, 1.0));
    assert_eq!(render.groups()[0].clear_color, Some(color(0.0, 1.0, 0.0, 1.0)));
}

#[test]
fn clear_touches_only_the_current_group() {
    let mut ctx = GraphicsContext::new(256);
    let canvas = Canvas::new(&mut ctx, Dimensions { x: 8, y: 8 });
    let mut render = Render::new();
    render.push_data(bundle(0), 1, Transform::default(), 0);
    push_canvas(&mut render, &canvas);
    render.push_data(bundle(1), 1, Transform::default(), 0);
    clear(&mut render, color(0.5, 0.5, 0.5, 1.0));
    assert_eq!(render.groups()[0].queue.len(), 1);
    assert_eq!(render.groups()[0].clear_color, None);
    assert!(render.groups()[1].queue.is_empty());
    assert_eq!(render.groups()[1].clear_color, Some(color(0.5, 0.5, 0.5, 1.0)));
}

#[test]
fn shader_scoping_yields_a_b_a() {
    let mut ctx = GraphicsContext::new(256);
    let a = Shader::new(&mut ctx);
    let b = Shader::new(&mut ctx);
    assert_eq!(a.pipeline_id(), 2);
    assert_eq!(b.pipeline_id(), 3);
    let mut render = Render::new();
    push_shader(&mut render, &a);
    render.push_data(bundle(0), 1, at(1.0, 0.0), 0);
    push_shader(&mut render, &b);
    render.push_data(bundle(1), 1, at(2.0, 0.0), 0);
    pop_shader(&mut render);
    render.push_data(bundle(2), 1, at(3.0, 0.0), 0);
    pop_shader(&mut render);
    let queue = &render.groups()[0].queue;
    let ids: Vec<usize> = queue.iter().map(|r| r.instance_data.pipeline_id).collect();
    assert_eq!(ids, vec![2, 3, 2]);
    render.push_data(bundle(3), 1, at(4.0, 0.0), 1);
    assert_eq!(render.groups()[0].queue[3].instance_data.pipeline_id, 1);
}

#[test]
fn pop_shader_without_a_shader_changes_nothing() {
    let mut render = Render::new();
    pop_shader(&mut render);
    pop_shader(&mut render);
    render.push_data(bundle(0), 1, Transform::default(), 1);
    assert_eq!(render.groups().len(), 1);
    assert_eq!(render.groups()[0].queue[0].instance_data.pipeline_id, 1);
}

#[test]
fn shader_override_applies_in_every_group() {
    let mut ctx = GraphicsContext::new(256);
    let shader = Shader::new(&mut ctx);
    let canvas = Canvas::new(&mut ctx, Dimensions { x: 8, y: 8 });
    let mut render = Render::new();
    push_shader(&mut render, &shader);
    push_canvas(&mut render, &canvas);
    render.push_data(bundle(0), 1, Transform::default(), 0);
    pop_canvas(&mut render);
    render.push_data(bundle(1), 1, Transform::default(), 1);
    assert_eq!(render.groups()[1].queue[0].instance_data.pipeline_id, 2);
    assert_eq!(render.groups()[0].queue[0].instance_data.pipeline_id, 2);
}

#[test]
fn canvas_round_trip_places_draws_in_their_groups() {
    let mut ctx = GraphicsContext::new(256);
    let canvas = Canvas::new(&mut ctx, Dimensions { x: 16, y: 16 });
    let mut render = Render::new();
    push_canvas(&mut render, &canvas);
    assert_eq!(render.current_index(), 1);
    render.push_data(bundle(10), 1, at(1.0, 1.0), 0);
    pop_canvas(&mut render);
    assert_eq!(render.current_index(), 0);
    render.push_data(bundle(20), 1, at(2.0, 2.0), 0);
    let groups = render.groups();
    assert_eq!(groups.len(), 2);
    assert_eq!(groups[0].target_id, TargetId::Screen);
    assert_eq!(groups[1].target_id, TargetId::CanvasId(canvas.canvas_id()));
    assert_eq!(groups[1].clear_color, None);
    assert_eq!(groups[1].queue.len(), 1);
    assert_eq!(groups[1].queue[0].pipeline_data, bundle(10));
    assert_eq!(groups[0].queue.len(), 1);
    assert_eq!(groups[0].queue[0].pipeline_data, bundle(20));
}

#[test]
fn pop_canvas_without_a_canvas_changes_nothing() {
    let mut render = Render::new();
    pop_canvas(&mut render);
    assert_eq!(render.current_index(), 0);
    assert_eq!(render.groups().len(), 1);
    render.push_data(bundle(0), 1, Transform::default(), 0);
    assert_eq!(render.groups()[0].queue.len(), 1);
}

#[test]
fn nested_canvases_unwind_in_order() {
    let mut ctx = GraphicsContext::new(256);
    let outer = Canvas::new(&mut ctx, Dimensions { x: 16, y: 16 });
    let inner = Canvas::new(&mut ctx, Dimensions { x: 8, y: 8 });
    assert_eq!(outer.canvas_id(), 0);
    assert_eq!(inner.canvas_id(), 1);
    let mut render = Render::new();
    push_canvas(&mut render, &outer);
    push_canvas(&mut render, &inner);
    assert_eq!(render.current_index(), 2);
    render.push_data(bundle(2), 1, Transform::default(), 0);
    pop_canvas(&mut render);
    assert_eq!(render.current_index(), 1);
    render.push_data(bundle(1), 1, Transform::default(), 0);
    pop_canvas(&mut render);
    assert_eq!(render.current_index(), 0);
    render.push_data(bundle(0), 1, Transform::default(), 0);
    let groups = render.groups();
    assert_eq!(groups.len(), 3);
    for g in 0..3usize {
        assert_eq!(groups[g].queue.len(), 1);
        assert_eq!(groups[g].queue[0].pipeline_data, bundle(g));
    }
    assert_eq!(groups[1].target_id, TargetId::CanvasId(0));
    assert_eq!(groups[2].target_id, TargetId::CanvasId(1));
}

#[test]
fn pushing_the_same_canvas_twice_makes_two_groups() {
    let mut ctx = GraphicsContext::new(256);
    let canvas = Canvas::new(&mut ctx, Dimensions { x: 16, y: 16 });
    let mut render = Render::new();
    push_canvas(&mut render, &canvas);
    pop_canvas(&mut render);
    push_canvas(&mut render, &canvas);
    assert_eq!(render.groups().len(), 3);
    assert_eq!(render.groups()[1].target_id, TargetId::CanvasId(0));
    assert_eq!(render.groups()[2].target_id, TargetId::CanvasId(0));
    assert_eq!(render.current_index(), 2);
}

#[test]
fn current_render_group_follows_the_canvas_scope() {
    let mut ctx = GraphicsContext::new(256);
    let canvas = Canvas::new(&mut ctx, Dimensions { x: 16, y: 16 });
    let mut render = Render::new();
    assert_eq!(render.current_render_group().target_id, TargetId::Screen);
    push_canvas(&mut render, &canvas);
    assert_eq!(render.current_render_group().target_id, TargetId::CanvasId(0));
}

#[test]
fn shader_data_is_carried_by_later_records() {
    let mut render = Render::new();
    render.push_data(bundle(0), 1, Transform::default(), 0);
    set_shader_data(&mut render, vec![1, 2, 3, 4]);
    render.push_data(bundle(1), 1, Transform::default(), 0);
    set_shader_data(&mut render, vec![9]);
    render.push_data(bundle(2), 1, Transform::default(), 0);
    let queue = &render.groups()[0].queue;
    assert!(queue[0].instance_data.uniform_extra.is_empty());
    assert_eq!(queue[1].instance_data.uniform_extra, vec![1, 2, 3, 4]);
    assert_eq!(queue[2].instance_data.uniform_extra, vec![9]);
}

#[test]
fn image_draw_replaces_the_scale() {
    let mut ctx = GraphicsContext::new(256);
    let image = Image::new(&mut ctx, Dimensions { x: 64, y: 32 });
    let mut render = Render::new();
    let scale = Vector2 { x: scalar(64.0), y: scalar(32.0) };
    image.draw(&mut render, at(0.25, 0.75), scale);
    let record = &render.groups()[0].queue[0];
    assert_eq!(record.pipeline_data, image.data());
    assert_eq!(record.instance_count, 1);
    assert_eq!(record.instance_data.pipeline_id, 0);
    assert_eq!(record.instance_data.transform.scale, scale);
    assert_eq!(record.instance_data.transform.position, at(0.25, 0.75).position);
    assert_eq!(record.instance_data.transform.offset, Transform::default().offset);
}

#[test]
fn canvas_and_mesh_draw_one_instance_with_the_standard_pipeline() {
    let mut ctx = GraphicsContext::new(256);
    let canvas = Canvas::new(&mut ctx, Dimensions { x: 16, y: 16 });
    let mesh = Mesh::new(&mut ctx, &[], &[], Vector2 { x: scalar(2.0), y: scalar(3.0) });
    let mut render = Render::new();
    canvas.draw(&mut render, at(1.0, 0.0));
    mesh.draw(&mut render, at(2.0, 0.0));
    let queue = &render.groups()[0].queue;
    assert_eq!(queue[0].pipeline_data, canvas.data());
    assert_eq!(queue[1].pipeline_data, mesh.data());
    assert_eq!(queue[1].pipeline_data.object_dimensions, Vector2 { x: scalar(2.0), y: scalar(3.0) });
    for record in queue.iter() {
        assert_eq!(record.instance_count, 1);
        assert_eq!(record.instance_data.pipeline_id, 0);
    }
}
