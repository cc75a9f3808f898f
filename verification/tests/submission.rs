use oblivion::{
    clear, plan_passes, pop_canvas, push_canvas, push_shader, total_draw_count, Canvas, Dimensions,
    GraphicsContext, Image, LoadOp, PipelineData, Point2, Render, RenderGroup, Rgba, Scalar,
    Shader, TargetId, Transform, Vector2, STANDARD_PIPELINE, TEXT_PIPELINE,
};

fn scalar(value: f32) -> Scalar {
    Scalar::from_bits(value.to_bits())
}

fn color(r: f32, g: f32, b: f32, a: f32) -> Rgba {
    Rgba { r: scalar(r), g: scalar(g), b: scalar(b), a: scalar(a) }
}

fn at(x: f32, y: f32) -> Transform {
    Transform { position: Point2 { x: scalar(x), y: scalar(y) }, ..Transform::default() }
}

fn unit() -> Vector2 {
    Vector2 { x: scalar(1.0), y: scalar(1.0) }
}

#[test]
fn new_context_holds_the_built_in_objects() {
    let ctx = GraphicsContext::new(256);
    assert_eq!(ctx.pipeline_count(), 2);
    assert_eq!(ctx.canvas_count(), 0);
    assert_eq!(ctx.mesh_buffer_count(), 1);
    assert_eq!(ctx.bind_group_count(), 0);
    assert_eq!(ctx.buffer_count(), 1);
    assert_eq!(ctx.texture_count(), 0);
    assert_eq!(ctx.font_count(), 1);
    assert_eq!(ctx.quad_mesh_buffer(), 0);
    assert_eq!(ctx.identity_instance_buffer(), 0);
    assert_eq!(ctx.default_font().id(), 0);
    assert_eq!(ctx.uniforms().capacity(), 0);
    assert_eq!(ctx.uniforms().alignment(), 256);
    assert_eq!(STANDARD_PIPELINE, 0);
    assert_eq!(TEXT_PIPELINE, 1);
}

#[test]
fn registering_hands_out_consecutive_handles() {
    let mut ctx = GraphicsContext::new(256);
    assert_eq!(ctx.register_pipeline(), 2);
    assert_eq!(ctx.register_pipeline(), 3);
    assert_eq!(ctx.register_canvas(), 0);
    assert_eq!(ctx.register_mesh_buffer(), 1);
    assert_eq!(ctx.register_bind_group(), 0);
    assert_eq!(ctx.register_bind_group(), 1);
    assert_eq!(ctx.register_buffer(), 1);
    assert_eq!(ctx.register_texture(), 0);
    assert_eq!(ctx.register_font(), 1);
    assert_eq!(ctx.pipeline_count(), 4);
    assert_eq!(ctx.bind_group_count(), 2);
}

#[test]
fn image_shares_the_quad_and_the_identity_instance() {
    let mut ctx = GraphicsContext::new(256);
    let first = Image::new(&mut ctx, Dimensions { x: 4, y: 2 });
    let second = Image::new(&mut ctx, Dimensions { x: 8, y: 8 });
    assert_eq!(
        first.data(),
        PipelineData { mesh_buffer: 0, bind_group: 0, instance_buffer: 0, object_dimensions: unit() }
    );
    assert_eq!(second.data().bind_group, 1);
    assert_eq!(first.texture(), 0);
    assert_eq!(second.texture(), 1);
    assert_eq!(first.dimensions(), Dimensions { x: 4, y: 2 });
}

#[test]
fn end_to_end_clear_draw_submit() {
    let mut ctx = GraphicsContext::new(256);
    let image = Image::new(&mut ctx, Dimensions { x: 4, y: 4 });
    let mut render = Render::new();
    clear(&mut render, color(0.1, 0.2, 0.3, 1.0));
    image.draw(&mut render, Transform::default(), unit());
    assert_eq!(render.groups().len(), 1);
    assert_eq!(render.groups()[0].target_id, TargetId::Screen);
    assert_eq!(render.groups()[0].queue.len(), 1);
    assert_eq!(render.groups()[0].clear_color, Some(color(0.1, 0.2, 0.3, 1.0)));
    assert!(ctx.can_submit(&render));
    let plan = ctx.submit_render(render);
    assert!(plan.grew);
    assert_eq!(ctx.uniforms().capacity(), 2);
    assert_eq!(plan.passes.len(), 1);
    let pass = &plan.passes[0];
    assert_eq!(pass.target, TargetId::Screen);
    assert_eq!(pass.load, LoadOp::Clear(color(0.1, 0.2, 0.3, 1.0)));
    assert_eq!(pass.draws.len(), 1);
    let draw = &pass.draws[0];
    assert_eq!(draw.pipeline_id, 0);
    assert_eq!(draw.uniform_slot, 0);
    assert_eq!(draw.instance_count, 1);
    assert_eq!(draw.pipeline_data, image.data());
    assert_eq!(draw.transform, Transform::default());
}

#[test]
fn a_second_frame_of_the_same_size_does_not_grow_the_pool() {
    let mut ctx = GraphicsContext::new(256);
    let image = Image::new(&mut ctx, Dimensions { x: 4, y: 4 });
    let mut first = Render::new();
    image.draw(&mut first, Transform::default(), unit());
    assert!(ctx.submit_render(first).grew);
    ctx.stage_uniform(0, &[7u8; 64]);
    let staged = ctx.uniforms().bytes().clone();
    let mut second = Render::new();
    image.draw(&mut second, Transform::default(), unit());
    image.draw(&mut second, at(1.0, 1.0), unit());
    let plan = ctx.submit_render(second);
    assert!(!plan.grew);
    assert_eq!(ctx.uniforms().capacity(), 2);
    assert_eq!(ctx.uniforms().bytes(), &staged);
    let mut third = Render::new();
    for _ in 0..3 {
        image.draw(&mut third, Transform::default(), unit());
    }
    let plan = ctx.submit_render(third);
    assert!(plan.grew);
    assert_eq!(ctx.uniforms().capacity(), 6);
}

#[test]
fn an_empty_queue_gives_one_pass_that_keeps_the_screen() {
    let mut ctx = GraphicsContext::new(256);
    let plan = ctx.submit_render(Render::new());
    assert!(!plan.grew);
    assert_eq!(ctx.uniforms().capacity(), 0);
    assert_eq!(plan.passes.len(), 1);
    assert_eq!(plan.passes[0].target, TargetId::Screen);
    assert_eq!(plan.passes[0].load, LoadOp::Load);
    assert!(plan.passes[0].draws.is_empty());
}

#[test]
fn no_groups_give_the_idle_pass() {
    let groups: Vec<RenderGroup> = Vec::new();
    assert_eq!(total_draw_count(&groups), 0);
    let passes = plan_passes(&groups);
    assert_eq!(passes.len(), 1);
    assert_eq!(passes[0].target, TargetId::Screen);
    assert_eq!(passes[0].load, LoadOp::Load);
    assert!(passes[0].draws.is_empty());
}

#[test]
fn slots_are_numbered_through_the_groups_in_creation_order() {
    let mut ctx = GraphicsContext::new(256);
    let image = Image::new(&mut ctx, Dimensions { x: 4, y: 4 });
    let first = Canvas::new(&mut ctx, Dimensions { x: 8, y: 8 });
    let second = Canvas::new(&mut ctx, Dimensions { x: 8, y: 8 });
    let mut render = Render::new();
    image.draw(&mut render, at(0.0, 0.0), unit());
    push_canvas(&mut render, &first);
    image.draw(&mut render, at(1.0, 0.0), unit());
    image.draw(&mut render, at(2.0, 0.0), unit());
    pop_canvas(&mut render);
    image.draw(&mut render, at(3.0, 0.0), unit());
    push_canvas(&mut render, &second);
    clear(&mut render, color(0.0, 0.0, 0.0, 0.0));
    image.draw(&mut render, at(4.0, 0.0), unit());
    pop_canvas(&mut render);
    image.draw(&mut render, at(5.0, 0.0), unit());
    assert_eq!(render.total_draw_count(), 6);
    assert!(ctx.can_submit(&render));
    let plan = ctx.submit_render(render);
    assert!(plan.grew);
    assert_eq!(ctx.uniforms().capacity(), 12);
    assert_eq!(plan.passes.len(), 3);
    assert_eq!(plan.passes[0].target, TargetId::Screen);
    assert_eq!(plan.passes[1].target, TargetId::CanvasId(0));
    assert_eq!(plan.passes[2].target, TargetId::CanvasId(1));
    assert_eq!(plan.passes[0].load, LoadOp::Load);
    assert_eq!(plan.passes[1].load, LoadOp::Load);
    assert_eq!(plan.passes[2].load, LoadOp::Clear(color(0.0, 0.0, 0.0, 0.0)));
    let slots: Vec<Vec<u64>> =
        plan.passes.iter().map(|p| p.draws.iter().map(|d| d.uniform_slot).collect()).collect();
    assert_eq!(slots, vec![vec![0, 1, 2], vec![3, 4], vec![5]]);
    let xs: Vec<Vec<f32>> = plan
        .passes
        .iter()
        .map(|p| p.draws.iter().map(|d| f32::from_bits(d.transform.position.x.to_bits())).collect())
        .collect();
    assert_eq!(xs, vec![vec![0.0, 3.0, 5.0], vec![1.0, 2.0], vec![4.0]]);
}

#[test]
fn the_slot_a_draw_binds_holds_the_matrix_written_for_it() {
    let mut ctx = GraphicsContext::new(256);
    let image = Image::new(&mut ctx, Dimensions { x: 4, y: 4 });
    let canvas = Canvas::new(&mut ctx, Dimensions { x: 8, y: 8 });
    let mut render = Render::new();
    image.draw(&mut render, at(10.0, 0.0), unit());
    push_canvas(&mut render, &canvas);
    image.draw(&mut render, at(20.0, 0.0), unit());
    pop_canvas(&mut render);
    image.draw(&mut render, at(30.0, 0.0), unit());
    let plan = ctx.submit_render(render);
    for pass in plan.passes.iter() {
        for draw in pass.draws.iter() {
            let mut m = [0u8; 64];
            m[0..4].copy_from_slice(&draw.transform.position.x.to_bits().to_le_bytes());
            ctx.stage_uniform(draw.uniform_slot, &m);
        }
    }
    for pass in plan.passes.iter() {
        for draw in pass.draws.iter() {
            let read = ctx.uniforms().read_slot(draw.uniform_slot);
            let x = f32::from_bits(u32::from_le_bytes([read[0], read[1], read[2], read[3]]));
            assert_eq!(x, f32::from_bits(draw.transform.position.x.to_bits()));
        }
    }
}

#[test]
fn a_plan_carries_the_shader_override() {
    let mut ctx = GraphicsContext::new(256);
    let image = Image::new(&mut ctx, Dimensions { x: 4, y: 4 });
    let shader = Shader::new(&mut ctx);
    let mut render = Render::new();
    push_shader(&mut render, &shader);
    image.draw(&mut render, Transform::default(), unit());
    let plan = ctx.submit_render(render);
    assert_eq!(plan.passes[0].draws[0].pipeline_id, 2);
}

#[test]
fn can_submit_refuses_what_the_context_does_not_hold() {
    let mut maker = GraphicsContext::new(256);
    let image = Image::new(&mut maker, Dimensions { x: 4, y: 4 });
    let canvas = Canvas::new(&mut maker, Dimensions { x: 4, y: 4 });
    let shader = Shader::new(&mut maker);

    let other = GraphicsContext::new(256);

    let mut draws_image = Render::new();
    image.draw(&mut draws_image, Transform::default(), unit());
    assert!(maker.can_submit(&draws_image));
    assert!(!other.can_submit(&draws_image));

    let mut targets_canvas = Render::new();
    push_canvas(&mut targets_canvas, &canvas);
    assert!(maker.can_submit(&targets_canvas));
    assert!(!other.can_submit(&targets_canvas));

    let mut uses_shader = Render::new();
    push_shader(&mut uses_shader, &shader);
    image.draw(&mut uses_shader, Transform::default(), unit());
    assert!(maker.can_submit(&uses_shader));
    let mut with_image_only = GraphicsContext::new(256);
    let _ = Image::new(&mut with_image_only, Dimensions { x: 4, y: 4 });
    assert!(!with_image_only.can_submit(&uses_shader));

    let mut bad_pipeline = Render::new();
    bad_pipeline.push_data(image.data(), 1, Transform::default(), 9);
    assert!(!maker.can_submit(&bad_pipeline));

    let mut bad_mesh = Render::new();
    bad_mesh.push_data(PipelineData { mesh_buffer: 5, ..image.data() }, 1, Transform::default(), 0);
    assert!(!maker.can_submit(&bad_mesh));

    let mut bad_instances = Render::new();
    bad_instances.push_data(
        PipelineData { instance_buffer: 5, ..image.data() },
        1,
        Transform::default(),
        0,
    );
    assert!(!maker.can_submit(&bad_instances));

    assert!(maker.can_submit(&Render::new()));
    assert!(other.can_submit(&Render::new()));
}

#[test]
fn total_draw_count_sums_the_groups() {
    let mut ctx = GraphicsContext::new(256);
    let canvas = Canvas::new(&mut ctx, Dimensions { x: 4, y: 4 });
    let image = Image::new(&mut ctx, Dimensions { x: 4, y: 4 });
    let mut render = Render::new();
    image.draw(&mut render, Transform::default(), unit());
    push_canvas(&mut render, &canvas);
    image.draw(&mut render, Transform::default(), unit());
    image.draw(&mut render, Transform::default(), unit());
    assert_eq!(total_draw_count(render.groups()), 3);
    clear(&mut render, color(0.0, 0.0, 0.0, 1.0));
    assert_eq!(render.total_draw_count(), 1);
}
