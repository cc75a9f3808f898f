//! Images: textured rectangles.

use vstd::prelude::*;
use crate::context::{ContextView, GraphicsContext, STANDARD_PIPELINE};
use crate::record::PipelineData;
use crate::render::Render;
use crate::rows::{download_layout, tight_rows, CopyLayout};
use crate::scalar::{unit_extent, Dimensions, Scalar, Vector2};
use crate::transform::Transform;

verus! {

/// Essentially just a textured rectangle.
#[derive(Clone, Copy)]
pub struct Image {
    data: PipelineData,
    dimensions: Dimensions,
    texture: usize,
}

impl Image {
    /// The device objects this image is drawn with.
    pub closed spec fn pipeline_data(&self) -> PipelineData {
        self.data
    }

    /// The size of the image in texels.
    pub closed spec fn size(&self) -> Dimensions {
        self.dimensions
    }

    /// Handle of the image's texture.
    pub closed spec fn texture_handle(&self) -> usize {
        self.texture
    }

    /// The image was made in the context `before`: its texture and bind group
    /// are the next of their tables, and it shares the context's unit quad
    /// and identity instance buffer.
    pub open spec fn is_new_in(&self, before: ContextView, dimensions: Dimensions) -> bool {
        &&& self.pipeline_data() == PipelineData {
            mesh_buffer: before.quad_mesh_buffer,
            bind_group: before.bind_groups as usize,
            instance_buffer: before.identity_instance_buffer,
            object_dimensions: unit_extent(),
        }
        &&& self.texture_handle() == before.textures
        &&& self.size() == dimensions
    }

    /// The context after an image was made in it.
    pub open spec fn context_after_new(before: ContextView) -> ContextView {
        ContextView {
            bind_groups: before.bind_groups + 1,
            textures: before.textures + 1,
            ..before
        }
    }

    /// Creates a new image object of `dimensions` texels.
    pub fn new(ctx: &mut GraphicsContext, dimensions: Dimensions) -> (image: Image)
        requires
            old(ctx).wf(),
            old(ctx)@.bind_groups < usize::MAX,
            old(ctx)@.textures < usize::MAX,
        ensures
            image.is_new_in(old(ctx)@, dimensions),
            final(ctx)@ == Image::context_after_new(old(ctx)@),
            final(ctx).wf(),
    {
        let texture = ctx.register_texture();
        let bind_group = ctx.register_bind_group();
        Image {
            data: PipelineData {
                mesh_buffer: ctx.quad_mesh_buffer(),
                bind_group,
                instance_buffer: ctx.identity_instance_buffer(),
                object_dimensions: Vector2 { x: Scalar::one(), y: Scalar::one() },
            },
            dimensions,
            texture,
        }
    }

    /// The device objects this image is drawn with.
    pub fn data(&self) -> (data: PipelineData)
        ensures
            data == self.pipeline_data(),
    {
        self.data
    }

    /// The size of the image in texels.
    pub fn dimensions(&self) -> (dimensions: Dimensions)
        ensures
            dimensions == self.size(),
    {
        self.dimensions
    }

    /// Handle of the image's texture.
    pub fn texture(&self) -> (handle: usize)
        ensures
            handle == self.texture_handle(),
    {
        self.texture
    }

    /// The layout of the buffer that the image's texture is copied to for a
    /// download, or `None` when its size cannot be written in sixty-four bits.
    pub fn download_layout(&self) -> (layout: Option<CopyLayout>)
        ensures
            match layout {
                Some(layout) => layout.fits_rgba(self.size()),
                None => forall|other: CopyLayout| !(#[trigger] other.fits_rgba(self.size())),
            },
    {
        download_layout(self.dimensions)
    }

    /// Gets the raw RGBA data of this image out of `mapped`, the bytes of the
    /// buffer that its texture was copied to: the rows, without their padding.
    pub fn download_rgba(&self, layout: &CopyLayout, mapped: &Vec<u8>) -> (rgba: Vec<u8>)
        requires
            layout.fits_rgba(self.size()),
            mapped.len() == layout.buffer_size,
        ensures
            rgba@ == tight_rows(
                mapped@,
                layout.byte_width as nat,
                layout.padded_width as nat,
                layout.rows as nat,
            ),
    {
        layout.strip(mapped)
    }

    /// Pushes this image to the draw queue, at the scale `scale`: the scale of
    /// `transform` times the extent of the image, axis by axis.
    pub fn draw(&self, render: &mut Render, transform: Transform, scale: Vector2)
        requires
            old(render).wf(),
            old(render)@.total_draws() < usize::MAX,
        ensures
            final(render)@ == old(render)@.draw(
                self.pipeline_data(),
                1,
                (Transform { scale, ..transform }),
                STANDARD_PIPELINE,
            ),
            final(render).wf(),
            final(render)@.total_draws() == old(render)@.total_draws() + 1,
    {
        let mut transform = transform;
        transform.scale = scale;
        render.push_data(self.data, 1, transform, STANDARD_PIPELINE);
    }
}

} // verus!
