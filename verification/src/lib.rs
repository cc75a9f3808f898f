//! A thin 2D rendering layer: drawables record draw calls into a queue, and a
//! graphics context turns a recorded queue into the passes and draws of one
//! frame.
//!
//! This crate holds the bookkeeping of that layer: the queue with its shader
//! and canvas scopes, the packing of per-draw uniforms into aligned slots, the
//! growth of the buffers behind them, and the plan of a frame. Device objects
//! are named by handles; creating them and replaying a plan on a device is the
//! embedding program's part.

pub mod canvas;
pub mod context;
pub mod image;
pub mod image_batch;
pub mod laws;
pub mod mesh;
pub mod plan;
pub mod record;
pub mod render;
pub mod rows;
pub mod scalar;
pub mod shader;
pub mod text;
pub mod transform;
pub mod uniform;

pub use crate::canvas::Canvas;
pub use crate::context::{ContextView, FramePlan, GraphicsContext, STANDARD_PIPELINE, TEXT_PIPELINE};
pub use crate::image::Image;
pub use crate::image_batch::{pack_matrices, BatchGrowth, BatchUpload, BatchView, ImageBatch, INSTANCE_SIZE};
pub use crate::mesh::{quad_vertices, Mesh, MeshBuffer, MeshBuilder, Vertex, QUAD_INDICES};
pub use crate::plan::{plan_passes, total_draw_count, DrawCommand, LoadOp, PassPlan, PassView};
pub use crate::record::{DrawData, DrawRecord, GroupView, PipelineData, RenderData, RenderGroup, TargetId};
pub use crate::render::{
    clear, pop_canvas, pop_shader, push_canvas, push_shader, set_shader_data, Render, RenderView,
};
pub use crate::scalar::{Dimensions, Point2, Rgba, Scalar, Vector2};
pub use crate::shader::{CustomShader, Shader, TextureConfig};
pub use crate::text::{
    glyph_quad_indices, glyph_rect_to_point_list, BrushOutcome, FlushStep, Font, FragmentView,
    GlyphUpload, Text, TextFragment, TextView,
};
pub use crate::transform::Transform;
pub use crate::uniform::{UniformPool, UniformPoolView, UNIFORM_SIZE};
