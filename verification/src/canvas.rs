//! Off-screen render targets.

use vstd::prelude::*;
use crate::context::{ContextView, GraphicsContext, STANDARD_PIPELINE};
use crate::record::PipelineData;
use crate::render::Render;
use crate::rows::{download_layout, tight_rows, CopyLayout};
use crate::scalar::{unit_extent, Dimensions, Scalar, Vector2};
use crate::transform::Transform;

verus! {

/// Canvases are used as rendering target to create a fake screen.
///
/// A canvas is an entry of the canvas table of the context that made it, and
/// can itself be drawn like an image.
pub struct Canvas {
    canvas_id: usize,
    texture: usize,
    data: PipelineData,
    dimensions: Dimensions,
}

impl Canvas {
    /// The entry of the canvas table that this canvas is.
    pub closed spec fn id(&self) -> usize {
        self.canvas_id
    }

    /// The entry of the canvas table that this canvas is.
    pub fn canvas_id(&self) -> (id: usize)
        ensures
            id == self.id(),
    {
        self.canvas_id
    }

    /// The device objects this canvas is drawn with.
    pub closed spec fn pipeline_data(&self) -> PipelineData {
        self.data
    }

    /// Handle of the texture that draws into this canvas end up in.
    pub closed spec fn texture_handle(&self) -> usize {
        self.texture
    }

    /// The size of the canvas in texels.
    pub closed spec fn size(&self) -> Dimensions {
        self.dimensions
    }

    /// The canvas was made in the context `before`: it is the next entry of
    /// the canvas table, its texture and bind group are the next of their
    /// tables, and it shares the context's unit quad and identity instance
    /// buffer.
    pub open spec fn is_new_in(&self, before: ContextView, dimensions: Dimensions) -> bool {
        &&& self.id() == before.canvases
        &&& self.pipeline_data() == PipelineData {
            mesh_buffer: before.quad_mesh_buffer,
            bind_group: before.bind_groups as usize,
            instance_buffer: before.identity_instance_buffer,
            object_dimensions: unit_extent(),
        }
        &&& self.texture_handle() == before.textures
        &&& self.size() == dimensions
    }

    /// The context after a canvas was made in it.
    pub open spec fn context_after_new(before: ContextView) -> ContextView {
        ContextView {
            canvases: before.canvases + 1,
            bind_groups: before.bind_groups + 1,
            textures: before.textures + 1,
            ..before
        }
    }

    /// Creates a new canvas of `dimensions` texels.
    pub fn new(ctx: &mut GraphicsContext, dimensions: Dimensions) -> (canvas: Canvas)
        requires
            old(ctx).wf(),
            old(ctx)@.canvases < usize::MAX,
            old(ctx)@.bind_groups < usize::MAX,
            old(ctx)@.textures < usize::MAX,
        ensures
            canvas.is_new_in(old(ctx)@, dimensions),
            final(ctx)@ == Canvas::context_after_new(old(ctx)@),
            final(ctx).wf(),
    {
        let texture = ctx.register_texture();
        let bind_group = ctx.register_bind_group();
        let canvas_id = ctx.register_canvas();
        Canvas {
            canvas_id,
            texture,
            data: PipelineData {
                mesh_buffer: ctx.quad_mesh_buffer(),
                bind_group,
                instance_buffer: ctx.identity_instance_buffer(),
                object_dimensions: Vector2 { x: Scalar::one(), y: Scalar::one() },
            },
            dimensions,
        }
    }

    /// The device objects this canvas is drawn with.
    pub fn data(&self) -> (data: PipelineData)
        ensures
            data == self.pipeline_data(),
    {
        self.data
    }

    /// The size of the canvas in texels.
    pub fn dimensions(&self) -> (dimensions: Dimensions)
        ensures
            dimensions == self.size(),
    {
        self.dimensions
    }

    /// Handle of the texture that draws into this canvas end up in.
    pub fn texture(&self) -> (handle: usize)
        ensures
            handle == self.texture_handle(),
    {
        self.texture
    }

    /// The layout of the buffer that the canvas's texture is copied to for a
    /// download, or `None` when its size cannot be written in sixty-four bits.
    pub fn download_layout(&self) -> (layout: Option<CopyLayout>)
        ensures
            match layout {
                Some(layout) => layout.fits_rgba(self.size()),
                None => forall|other: CopyLayout| !(#[trigger] other.fits_rgba(self.size())),
            },
    {
        download_layout(self.dimensions)
    }

    /// Gets the raw RGBA data of this canvas's underlying texture out of
    /// `mapped`, the bytes of the buffer that the texture was copied to: the
    /// rows, without their padding.
    pub fn download_rgba(&self, layout: &CopyLayout, mapped: &Vec<u8>) -> (rgba: Vec<u8>)
        requires
            layout.fits_rgba(self.size()),
            mapped.len() == layout.buffer_size,
        ensures
            rgba@ == tight_rows(
                mapped@,
                layout.byte_width as nat,
                layout.padded_width as nat,
                layout.rows as nat,
            ),
    {
        layout.strip(mapped)
    }

    /// Pushes this canvas to the draw queue.
    pub fn draw(&self, render: &mut Render, transform: Transform)
        requires
            old(render).wf(),
            old(render)@.total_draws() < usize::MAX,
        ensures
            final(render)@ == old(render)@.draw(
                self.pipeline_data(),
                1,
                transform,
                STANDARD_PIPELINE,
            ),
            final(render).wf(),
            final(render)@.total_draws() == old(render)@.total_draws() + 1,
    {
        render.push_data(self.data, 1, transform, STANDARD_PIPELINE);
    }
}

} // verus!
