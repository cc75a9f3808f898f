//! Meshes: vertices, indices, and the builder that keeps them consistent.

use vstd::prelude::*;
use crate::context::{GraphicsContext, STANDARD_PIPELINE};
use crate::record::PipelineData;
use crate::render::Render;
use crate::scalar::{Point2, Rgba, Scalar, Vector2, ONE_BITS, ZERO_BITS};
use crate::transform::Transform;

verus! {

/// Vertex data.
#[derive(Clone, Copy, Debug, PartialEq, Eq, Structural)]
pub struct Vertex {
    /// Position.
    pub position: Point2,
    /// Color.
    pub color: Rgba,
    /// Texture coordinate.
    pub uv: Point2,
}

/// The two triangles of a quad whose corners are numbered top left, top
/// right, bottom left, bottom right.
pub const QUAD_INDICES: [u16; 6] = [0, 1, 2, 1, 3, 2];

/// Corner `corner` of the unit quad: white, with its position as texture
/// coordinate. Corners are numbered top left, top right, bottom left, bottom
/// right.
pub open spec fn quad_corner(corner: int) -> Vertex {
    let x = Scalar { bits: if corner % 2 == 1 { ONE_BITS } else { ZERO_BITS } };
    let y = Scalar { bits: if corner >= 2 { ONE_BITS } else { ZERO_BITS } };
    Vertex {
        position: Point2 { x, y },
        color: crate::scalar::opaque_white(),
        uv: Point2 { x, y },
    }
}

/// The vertices of the unit quad that images and canvases are drawn with.
pub fn quad_vertices() -> (vertices: [Vertex; 4])
    ensures
        forall|corner: int| 0 <= corner < 4 ==> vertices[corner] == quad_corner(corner),
{
    let zero = Scalar::zero();
    let one = Scalar::one();
    let white = Rgba { r: one, g: one, b: one, a: one };
    [
        Vertex {
            position: Point2 { x: zero, y: zero },
            color: white,
            uv: Point2 { x: zero, y: zero },
        },
        Vertex { position: Point2 { x: one, y: zero }, color: white, uv: Point2 { x: one, y: zero } },
        Vertex { position: Point2 { x: zero, y: one }, color: white, uv: Point2 { x: zero, y: one } },
        Vertex { position: Point2 { x: one, y: one }, color: white, uv: Point2 { x: one, y: one } },
    ]
}

/// The sizes of a vertex buffer and its index buffer, in elements.
#[derive(Clone, Copy, Debug, PartialEq, Eq, Structural)]
pub struct MeshBuffer {
    /// Number of vertices.
    pub vertex_count: u32,
    /// Number of indices: what one draw of the mesh runs through.
    pub index_count: u32,
}

impl MeshBuffer {
    /// The sizes of the buffers that hold these vertices and indices. A count
    /// that does not fit keeps its low thirty-two bits.
    pub fn from_slices(vertex: &[Vertex], index: &[u16]) -> (buffer: MeshBuffer)
        ensures
            buffer == MeshBuffer::sizes(vertex@.len(), index@.len()),
    {
        MeshBuffer {
            vertex_count: #[verifier::truncate] (vertex.len() as u32),
            index_count: #[verifier::truncate] (index.len() as u32),
        }
    }

    /// The sizes of buffers with this many vertices and indices.
    pub open spec fn sizes(vertices: nat, indices: nat) -> MeshBuffer {
        MeshBuffer { vertex_count: vertices as u32, index_count: indices as u32 }
    }
}

/// A mesh under construction, as a value.
pub struct MeshBuilderView {
    pub vertex: Seq<Vertex>,
    pub index: Seq<u16>,
}

impl MeshBuilderView {
    /// Every index names a vertex, and the indices form triangles.
    pub open spec fn wf(self) -> bool {
        &&& self.vertex.len() <= u16::MAX
        &&& self.index.len() % 3 == 0
        &&& forall|i: int| 0 <= i < self.index.len() ==> (#[trigger] self.index[i]) < self.vertex.len()
    }

    /// A vertex at `position` in `color`, without texture coordinate.
    pub open spec fn plain_vertex(position: Point2, color: Rgba) -> Vertex {
        Vertex {
            position,
            color,
            uv: Point2 { x: Scalar { bits: ZERO_BITS }, y: Scalar { bits: ZERO_BITS } },
        }
    }

    /// After `tri`: three more vertices and one triangle over them, wound
    /// first, third, second.
    pub open spec fn tri(self, corners: Seq<Point2>, color: Rgba) -> MeshBuilderView {
        let base = self.vertex.len() as u16;
        MeshBuilderView {
            vertex: self.vertex + seq![
                Self::plain_vertex(corners[0], color),
                Self::plain_vertex(corners[1], color),
                Self::plain_vertex(corners[2], color),
            ],
            index: self.index + seq![base, (base + 2) as u16, (base + 1) as u16],
        }
    }

    /// After `quad`: four more vertices and two triangles over them, as in
    /// `QUAD_INDICES`.
    pub open spec fn quad(self, corners: Seq<Point2>, color: Rgba) -> MeshBuilderView {
        let base = self.vertex.len() as u16;
        MeshBuilderView {
            vertex: self.vertex + seq![
                Self::plain_vertex(corners[0], color),
                Self::plain_vertex(corners[1], color),
                Self::plain_vertex(corners[2], color),
                Self::plain_vertex(corners[3], color),
            ],
            index: self.index + seq![
                base,
                (base + 1) as u16,
                (base + 2) as u16,
                (base + 1) as u16,
                (base + 3) as u16,
                (base + 2) as u16,
            ],
        }
    }
}

/// Provides a way to build `Mesh` with convient functions such as triangle and rectangle generators.
pub struct MeshBuilder {
    vertex: Vec<Vertex>,
    base_index: u16,
    index: Vec<u16>,
}

impl View for MeshBuilder {
    type V = MeshBuilderView;

    closed spec fn view(&self) -> MeshBuilderView {
        MeshBuilderView { vertex: self.vertex@, index: self.index@ }
    }
}

impl MeshBuilder {
    /// The builder is well formed: the next shape's first vertex is numbered
    /// by the count of vertices so far.
    pub closed spec fn wf(&self) -> bool {
        &&& self@.wf()
        &&& self.base_index == self.vertex@.len()
    }

    /// A well-formed builder stands for a well-formed mesh.
    pub proof fn lemma_wf(&self)
        requires
            self.wf(),
        ensures
            self@.wf(),
    {
    }

    /// Creates a new mesh builder object.
    pub fn new() -> (builder: MeshBuilder)
        ensures
            builder.wf(),
            builder@.vertex == Seq::<Vertex>::empty(),
            builder@.index == Seq::<u16>::empty(),
    {
        MeshBuilder { vertex: Vec::new(), base_index: 0, index: Vec::new() }
    }

    /// Number of vertices so far.
    pub fn vertex_count(&self) -> (count: usize)
        ensures
            count == self@.vertex.len(),
    {
        self.vertex.len()
    }

    /// The vertices so far.
    pub fn vertices(&self) -> (vertices: &Vec<Vertex>)
        ensures
            vertices@ == self@.vertex,
    {
        &self.vertex
    }

    /// The indices so far.
    pub fn indices(&self) -> (indices: &Vec<u16>)
        ensures
            indices@ == self@.index,
    {
        &self.index
    }

    /// Adds a triangle to the builder, with its corners at `corners`.
    pub fn tri(&mut self, corners: [Point2; 3], color: Rgba)
        requires
            old(self).wf(),
            old(self)@.vertex.len() + 3 <= u16::MAX,
        ensures
            final(self)@ == old(self)@.tri(corners@, color),
            final(self).wf(),
    {
        let zero = Point2 { x: Scalar::zero(), y: Scalar::zero() };
        let base = self.base_index;
        self.vertex.push(Vertex { position: corners[0], color, uv: zero });
        self.vertex.push(Vertex { position: corners[1], color, uv: zero });
        self.vertex.push(Vertex { position: corners[2], color, uv: zero });
        self.index.push(base);
        self.index.push(base + 2);
        self.index.push(base + 1);
        self.base_index = base + 3;
        proof {
            assert(self@.vertex =~= old(self)@.tri(corners@, color).vertex);
            assert(self@.index =~= old(self)@.tri(corners@, color).index);
        }
    }

    /// Adds a quadrilateral to the builder, with its corners at `corners`:
    /// top left, top right, bottom left, bottom right.
    pub fn quad(&mut self, corners: [Point2; 4], color: Rgba)
        requires
            old(self).wf(),
            old(self)@.vertex.len() + 4 <= u16::MAX,
        ensures
            final(self)@ == old(self)@.quad(corners@, color),
            final(self).wf(),
    {
        let zero = Point2 { x: Scalar::zero(), y: Scalar::zero() };
        let base = self.base_index;
        self.vertex.push(Vertex { position: corners[0], color, uv: zero });
        self.vertex.push(Vertex { position: corners[1], color, uv: zero });
        self.vertex.push(Vertex { position: corners[2], color, uv: zero });
        self.vertex.push(Vertex { position: corners[3], color, uv: zero });
        self.index.push(base);
        self.index.push(base + 1);
        self.index.push(base + 2);
        self.index.push(base + 1);
        self.index.push(base + 3);
        self.index.push(base + 2);
        self.base_index = base + 4;
        proof {
            assert(self@.vertex =~= old(self)@.quad(corners@, color).vertex);
            assert(self@.index =~= old(self)@.quad(corners@, color).index);
        }
    }

    /// Builds the mesh object. `object_dimensions` is the extent of the
    /// vertices' bounding box.
    pub fn build(&self, ctx: &mut GraphicsContext, object_dimensions: Vector2) -> (mesh: Mesh)
        requires
            old(ctx).wf(),
            old(ctx)@.mesh_buffers < usize::MAX,
            old(ctx)@.bind_groups < usize::MAX,
            old(ctx)@.textures < usize::MAX,
        ensures
            mesh.is_new_in(old(ctx)@, object_dimensions),
            final(ctx)@ == Mesh::context_after_new(old(ctx)@),
            final(ctx).wf(),
            mesh.buffer() == MeshBuffer::sizes(self@.vertex.len(), self@.index.len()),
    {
        Mesh::new(ctx, self.vertex.as_slice(), self.index.as_slice(), object_dimensions)
    }
}

/// Renderable mesh object. Essentially a list of shapes.
#[derive(Clone, Copy)]
pub struct Mesh {
    data: PipelineData,
    texture: usize,
    buffer: MeshBuffer,
}

impl Mesh {
    /// The device objects this mesh is drawn with.
    pub closed spec fn pipeline_data(&self) -> PipelineData {
        self.data
    }

    /// Handle of the mesh's one-texel white texture.
    pub closed spec fn texture_handle(&self) -> usize {
        self.texture
    }

    /// The sizes of the mesh's buffers.
    pub closed spec fn buffer(&self) -> MeshBuffer {
        self.buffer
    }

    /// The mesh was made in the context `before`: its mesh buffer, texture
    /// and bind group are the next of their tables, and it shares the
    /// context's identity instance buffer.
    pub open spec fn is_new_in(&self, before: crate::context::ContextView, extent: Vector2) -> bool {
        &&& self.pipeline_data() == PipelineData {
            mesh_buffer: before.mesh_buffers as usize,
            bind_group: before.bind_groups as usize,
            instance_buffer: before.identity_instance_buffer,
            object_dimensions: extent,
        }
        &&& self.texture_handle() == before.textures
    }

    /// The context after a mesh was made in it.
    pub open spec fn context_after_new(before: crate::context::ContextView) -> crate::context::ContextView {
        crate::context::ContextView {
            mesh_buffers: before.mesh_buffers + 1,
            bind_groups: before.bind_groups + 1,
            textures: before.textures + 1,
            ..before
        }
    }

    /// Creates a new mesh object. `object_dimensions` is the extent of the
    /// vertices' bounding box.
    pub fn new(
        ctx: &mut GraphicsContext,
        vertex: &[Vertex],
        index: &[u16],
        object_dimensions: Vector2,
    ) -> (mesh: Mesh)
        requires
            old(ctx).wf(),
            old(ctx)@.mesh_buffers < usize::MAX,
            old(ctx)@.bind_groups < usize::MAX,
            old(ctx)@.textures < usize::MAX,
        ensures
            mesh.is_new_in(old(ctx)@, object_dimensions),
            final(ctx)@ == Mesh::context_after_new(old(ctx)@),
            final(ctx).wf(),
            mesh.buffer() == MeshBuffer::sizes(vertex@.len(), index@.len()),
    {
        let buffer = MeshBuffer::from_slices(vertex, index);
        let mesh_buffer = ctx.register_mesh_buffer();
        let texture = ctx.register_texture();
        let bind_group = ctx.register_bind_group();
        Mesh {
            data: PipelineData {
                mesh_buffer,
                bind_group,
                instance_buffer: ctx.identity_instance_buffer(),
                object_dimensions,
            },
            texture,
            buffer,
        }
    }

    /// The device objects this mesh is drawn with.
    pub fn data(&self) -> (data: PipelineData)
        ensures
            data == self.pipeline_data(),
    {
        self.data
    }

    /// Handle of the mesh's one-texel white texture.
    pub fn texture(&self) -> (handle: usize)
        ensures
            handle == self.texture_handle(),
    {
        self.texture
    }

    /// The sizes of the mesh's buffers.
    pub fn mesh_buffer(&self) -> (buffer: MeshBuffer)
        ensures
            buffer == self.buffer(),
    {
        self.buffer
    }

    /// Pushes this mesh to the draw queue.
    pub fn draw(&self, render: &mut Render, transform: Transform)
        requires
            old(render).wf(),
            old(render)@.total_draws() < usize::MAX,
        ensures
            final(render)@ == old(render)@.draw(
                self.pipeline_data(),
                1,
                transform,
                STANDARD_PIPELINE,
            ),
            final(render).wf(),
            final(render)@.total_draws() == old(render)@.total_draws() + 1,
    {
        render.push_data(self.data, 1, transform, STANDARD_PIPELINE);
    }
}

} // verus!
