use oblivion::rows::CopyLayout;
use oblivion::{
    glyph_quad_indices, glyph_rect_to_point_list, BrushOutcome, Dimensions, FlushStep, Font,
    GlyphUpload, GraphicsContext, Point2, Render, Rgba, Scalar, Text, TextFragment, Transform,
    Vector2,
};

fn scalar(value: f32) -> Scalar {
    Scalar::from_bits(value.to_bits())
}

fn white() -> Rgba {
    Rgba { r: scalar(1.0), g: scalar(1.0), b: scalar(1.0), a: scalar(1.0) }
}

fn atlas() -> Dimensions {
    Dimensions { x: 256, y: 256 }
}

#[test]
fn fragment_from_a_string_is_white_in_the_built_in_font() {
    let fragment = TextFragment::from(String::from("hello"));
    assert_eq!(fragment.text, "hello");
    assert_eq!(fragment.font, None);
    assert_eq!(fragment.color, white());
}

#[test]
fn plain_fragment_is_white_in_the_built_in_font() {
    let fragment = TextFragment::plain("world");
    assert_eq!(fragment.text, "world");
    assert_eq!(fragment.font, None);
    assert_eq!(fragment.color, white());
}

#[test]
fn fonts_are_numbered_behind_the_built_in_one() {
    let mut ctx = GraphicsContext::new(256);
    let first = Font::new(&mut ctx);
    let second = Font::new(&mut ctx);
    assert_eq!(first.id(), 1);
    assert_eq!(second.id(), 2);
    assert_eq!(ctx.font_count(), 3);
    assert_ne!(first, second);
    assert_ne!(first, ctx.default_font());
}

#[test]
fn new_text_is_clean_and_empty() {
    let mut ctx = GraphicsContext::new(256);
    let text = Text::new(&mut ctx, atlas());
    assert!(!text.is_dirty());
    assert!(text.fragments().is_empty());
    assert_eq!(text.atlas_dimensions(), atlas());
    assert_eq!(text.data().mesh_buffer, 1);
    assert_eq!(text.data().bind_group, 0);
    assert_eq!(text.data().instance_buffer, ctx.identity_instance_buffer());
    assert_eq!(text.data().object_dimensions, Vector2 { x: scalar(0.0), y: scalar(0.0) });
    assert_eq!(text.texture(), 0);
    assert_eq!(text.upload_buffer(), 1);
    let zero = Point2 { x: scalar(0.0), y: scalar(0.0) };
    assert_eq!(text.bounds(), (zero, Vector2 { x: scalar(0.0), y: scalar(0.0) }));
}

#[test]
fn add_text_appends_and_marks_dirty() {
    let mut ctx = GraphicsContext::new(256);
    let mut text = Text::new(&mut ctx, atlas());
    text.add_text(vec![TextFragment::plain("a"), TextFragment::plain("b")]);
    assert!(text.is_dirty());
    text.add_text(vec![TextFragment::plain("c")]);
    let texts: Vec<&str> = text.fragments().iter().map(|f| f.text.as_str()).collect();
    assert_eq!(texts, vec!["a", "b", "c"]);
}

#[test]
fn clear_removes_the_fragments_and_keeps_the_flag() {
    let mut ctx = GraphicsContext::new(256);
    let mut text = Text::new(&mut ctx, atlas());
    text.clear();
    assert!(!text.is_dirty());
    text.add_text(vec![TextFragment::plain("a")]);
    text.clear();
    assert!(text.fragments().is_empty());
    assert!(text.is_dirty());
}

#[test]
fn fragments_without_a_font_get_the_default() {
    let mut ctx = GraphicsContext::new(256);
    let fancy = Font::new(&mut ctx);
    let mut text = Text::new(&mut ctx, atlas());
    text.add_text(vec![
        TextFragment::plain("a"),
        TextFragment { text: String::from("b"), font: Some(fancy), color: white() },
        TextFragment::plain("c"),
    ]);
    let fonts = text.fonts(ctx.default_font());
    let ids: Vec<usize> = fonts.iter().map(|f| f.id()).collect();
    assert_eq!(ids, vec![0, 1, 0]);
}

#[test]
fn set_bounds_sets_the_extent_the_pivot_scales_by() {
    let mut ctx = GraphicsContext::new(256);
    let mut text = Text::new(&mut ctx, atlas());
    let position = Point2 { x: scalar(0.1), y: scalar(0.2) };
    let size = Vector2 { x: scalar(0.3), y: scalar(0.4) };
    text.set_bounds(position, size);
    assert_eq!(text.bounds(), (position, size));
    assert_eq!(text.data().object_dimensions, size);
}

#[test]
fn quad_indices_split_each_quad_along_one_diagonal() {
    assert!(glyph_quad_indices(0).is_empty());
    assert_eq!(glyph_quad_indices(1), vec![0, 1, 2, 0, 2, 3]);
    assert_eq!(glyph_quad_indices(3), vec![0, 1, 2, 0, 2, 3, 4, 5, 6, 4, 6, 7, 8, 9, 10, 8, 10, 11]);
    let many = glyph_quad_indices(16383);
    assert_eq!(many.len(), 98298);
    assert_eq!(many[98297], 65531);
    assert_eq!(many[98296], 65530);
    assert_eq!(many[98292], 65528);
}

#[test]
fn rect_corners_go_around_from_the_least_corner() {
    let min = Point2 { x: scalar(1.0), y: scalar(2.0) };
    let max = Point2 { x: scalar(3.0), y: scalar(4.0) };
    let corners = glyph_rect_to_point_list(min, max);
    assert_eq!(corners[0], Point2 { x: scalar(1.0), y: scalar(2.0) });
    assert_eq!(corners[1], Point2 { x: scalar(3.0), y: scalar(2.0) });
    assert_eq!(corners[2], Point2 { x: scalar(3.0), y: scalar(4.0) });
    assert_eq!(corners[3], Point2 { x: scalar(1.0), y: scalar(4.0) });
}

#[test]
fn flush_of_a_clean_text_does_nothing() {
    let mut ctx = GraphicsContext::new(256);
    let mut text = Text::new(&mut ctx, atlas());
    let data = text.data();
    let step = text.flush(BrushOutcome::Draw { quads: 2 });
    assert!(matches!(step, FlushStep::Done));
    let step = text.flush(BrushOutcome::Draw { quads: usize::MAX });
    assert!(matches!(step, FlushStep::Done));
    let step = text.flush(BrushOutcome::TextureTooSmall { suggested: Dimensions { x: 9, y: 9 } });
    assert!(matches!(step, FlushStep::Done));
    assert_eq!(text.data(), data);
    assert_eq!(text.atlas_dimensions(), atlas());
    assert!(!text.is_dirty());
}

#[test]
fn flush_with_new_quads_rebuilds_the_mesh() {
    let mut ctx = GraphicsContext::new(256);
    let mut text = Text::new(&mut ctx, atlas());
    let data = text.data();
    text.add_text(vec![TextFragment::plain("ab")]);
    let step = text.flush(BrushOutcome::Draw { quads: 2 });
    match step {
        FlushStep::Rebuild { indices } => {
            assert_eq!(indices, vec![0, 1, 2, 0, 2, 3, 4, 5, 6, 4, 6, 7]);
        },
        _ => panic!("a draw outcome rebuilds the mesh"),
    }
    assert!(!text.is_dirty());
    assert_eq!(text.data(), data);
}

#[test]
fn flush_with_nothing_new_keeps_the_mesh() {
    let mut ctx = GraphicsContext::new(256);
    let mut text = Text::new(&mut ctx, atlas());
    text.add_text(vec![TextFragment::plain("ab")]);
    let step = text.flush(BrushOutcome::ReDraw);
    assert!(matches!(step, FlushStep::Done));
    assert!(!text.is_dirty());
}

#[test]
fn flush_with_a_small_atlas_resizes_and_retries() {
    let mut ctx = GraphicsContext::new(256);
    let mut text = Text::new(&mut ctx, atlas());
    let data = text.data();
    text.add_text(vec![TextFragment::plain("ab")]);
    let suggested = Dimensions { x: 512, y: 1024 };
    let step = text.flush(BrushOutcome::TextureTooSmall { suggested });
    match step {
        FlushStep::Retry { dimensions } => assert_eq!(dimensions, suggested),
        _ => panic!("a small atlas is retried"),
    }
    assert!(text.is_dirty());
    assert_eq!(text.atlas_dimensions(), suggested);
    assert_eq!(text.data(), data);
    let step = text.flush(BrushOutcome::Draw { quads: 1 });
    assert!(matches!(step, FlushStep::Rebuild { .. }));
    assert!(!text.is_dirty());
    assert_eq!(text.atlas_dimensions(), suggested);
}

#[test]
fn small_glyphs_fit_the_upload_buffer() {
    let mut ctx = GraphicsContext::new(256);
    let mut text = Text::new(&mut ctx, atlas());
    let upload = text.plan_upload(10, 10);
    assert_eq!(
        upload,
        GlyphUpload {
            layout: CopyLayout { byte_width: 10, padded_width: 256, rows: 10, buffer_size: 2560 },
            grow: false,
        }
    );
    let upload = text.plan_upload(256, 100);
    assert_eq!(upload.layout.buffer_size, 25600);
    assert!(!upload.grow);
}

#[test]
fn large_glyphs_replace_the_upload_buffer() {
    let mut ctx = GraphicsContext::new(256);
    let mut text = Text::new(&mut ctx, atlas());
    let handle = text.upload_buffer();
    let upload = text.plan_upload(300, 200);
    assert_eq!(
        upload.layout,
        CopyLayout { byte_width: 300, padded_width: 512, rows: 200, buffer_size: 102400 }
    );
    assert!(upload.grow);
    assert_eq!(text.upload_buffer(), handle);
    assert!(!text.plan_upload(300, 200).grow);
    assert!(!text.plan_upload(256, 101).grow);
    assert!(text.plan_upload(512, 201).grow);
}

#[test]
fn the_largest_glyph_can_be_planned() {
    let mut ctx = GraphicsContext::new(256);
    let mut text = Text::new(&mut ctx, atlas());
    let upload = text.plan_upload(u32::MAX, u32::MAX);
    assert_eq!(upload.layout.padded_width, 1 << 32);
    assert_eq!(upload.layout.buffer_size, (1u64 << 32) * (u32::MAX as u64));
    assert!(upload.grow);
    let empty = text.plan_upload(0, 7);
    assert_eq!(
        empty.layout,
        CopyLayout { byte_width: 0, padded_width: 0, rows: 7, buffer_size: 0 }
    );
}

#[test]
fn flushed_text_draws_with_the_text_pipeline() {
    let mut ctx = GraphicsContext::new(256);
    let mut text = Text::new(&mut ctx, atlas());
    text.add_text(vec![TextFragment::plain("ab")]);
    text.flush(BrushOutcome::Draw { quads: 2 });
    let mut render = Render::new();
    text.draw(&mut render, Transform::default());
    let record = &render.groups()[0].queue[0];
    assert_eq!(record.instance_data.pipeline_id, 1);
    assert_eq!(record.instance_count, 1);
    assert_eq!(record.pipeline_data, text.data());
}
