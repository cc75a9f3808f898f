//! Image batches: one texture drawn at many places in a single draw.

use vstd::prelude::*;
use crate::context::{ContextView, GraphicsContext, STANDARD_PIPELINE};
use crate::record::PipelineData;
use crate::render::Render;
use crate::scalar::{unit_extent, Scalar, Vector2};
use crate::transform::Transform;

verus! {

/// Bytes of one instance: a 4×4 matrix of binary32 values.
pub const INSTANCE_SIZE: usize = 64;

/// The bytes of `matrices`, one matrix behind the other.
pub open spec fn packed(matrices: Seq<[u8; 64]>) -> Seq<u8> {
    Seq::new(
        (matrices.len() * INSTANCE_SIZE) as nat,
        |i: int| matrices[i / INSTANCE_SIZE as int][i % INSTANCE_SIZE as int],
    )
}

/// The replacement of a batch's instance buffer by a larger one, under the
/// handle of the old one.
#[derive(Clone, Copy, Debug, PartialEq, Eq, Structural)]
pub struct BatchGrowth {
    /// Size of the new buffer in bytes: exactly what the instances need.
    pub size: u64,
    /// Bytes to copy from the start of the old buffer to the start of the new
    /// one: the instances that the batch held.
    pub copy_size: u64,
}

/// What adding instances asks of the device.
pub struct BatchUpload {
    /// The growth of the instance buffer that comes first, if any.
    pub growth: Option<BatchGrowth>,
    /// Offset in the instance buffer at which `data` is written.
    pub write_offset: u64,
    /// The bytes of the new instances.
    pub data: Vec<u8>,
}

/// An image batch as a value.
pub struct BatchView {
    /// The device objects the batch is drawn with.
    pub data: PipelineData,
    /// Number of instances that the instance buffer has room for.
    pub capacity: nat,
    /// Number of instances in the batch.
    pub count: nat,
}

impl BatchView {
    /// After `count` more instances. A buffer that is too small is replaced
    /// by one of exactly the size needed.
    pub open spec fn add(self, count: nat) -> BatchView {
        if self.count + count > self.capacity {
            BatchView { capacity: self.count + count, count: self.count + count, ..self }
        } else {
            BatchView { count: self.count + count, ..self }
        }
    }

    /// The growth that comes with `count` more instances.
    pub open spec fn growth(self, count: nat) -> Option<BatchGrowth> {
        if self.count + count > self.capacity {
            Some(
                BatchGrowth {
                    size: ((self.count + count) * INSTANCE_SIZE) as u64,
                    copy_size: (self.count * INSTANCE_SIZE) as u64,
                },
            )
        } else {
            None
        }
    }
}

/// Draws a single texture using many `Transform`s
pub struct ImageBatch {
    data: PipelineData,
    texture: usize,
    instance_buffer_capacity: u64,
    instance_buffer_count: u64,
}

impl View for ImageBatch {
    type V = BatchView;

    closed spec fn view(&self) -> BatchView {
        BatchView {
            data: self.data,
            capacity: self.instance_buffer_capacity as nat,
            count: self.instance_buffer_count as nat,
        }
    }
}

impl ImageBatch {
    /// Handle of the batch's texture.
    pub closed spec fn texture_handle(&self) -> usize {
        self.texture
    }

    /// The batch holds no more instances than its buffer has room for.
    pub open spec fn wf(&self) -> bool {
        self@.count <= self@.capacity
    }

    /// The context after a batch was made in it.
    pub open spec fn context_after_new(before: ContextView) -> ContextView {
        ContextView {
            bind_groups: before.bind_groups + 1,
            textures: before.textures + 1,
            buffers: before.buffers + 1,
            ..before
        }
    }

    /// Creates a new image batch object: an empty batch with an instance
    /// buffer of its own, without room for any instance.
    pub fn new(ctx: &mut GraphicsContext) -> (batch: ImageBatch)
        requires
            old(ctx).wf(),
            old(ctx)@.bind_groups < usize::MAX,
            old(ctx)@.textures < usize::MAX,
            old(ctx)@.buffers < usize::MAX,
        ensures
            batch@ == (BatchView {
                data: PipelineData {
                    mesh_buffer: old(ctx)@.quad_mesh_buffer,
                    bind_group: old(ctx)@.bind_groups as usize,
                    instance_buffer: old(ctx)@.buffers as usize,
                    object_dimensions: unit_extent(),
                },
                capacity: 0,
                count: 0,
            }),
            batch.texture_handle() == old(ctx)@.textures,
            batch.wf(),
            final(ctx)@ == ImageBatch::context_after_new(old(ctx)@),
            final(ctx).wf(),
    {
        let texture = ctx.register_texture();
        let bind_group = ctx.register_bind_group();
        let instance_buffer = ctx.register_buffer();
        ImageBatch {
            data: PipelineData {
                mesh_buffer: ctx.quad_mesh_buffer(),
                bind_group,
                instance_buffer,
                object_dimensions: Vector2 { x: Scalar::one(), y: Scalar::one() },
            },
            texture,
            instance_buffer_capacity: 0,
            instance_buffer_count: 0,
        }
    }

    /// The device objects the batch is drawn with.
    pub fn data(&self) -> (data: PipelineData)
        ensures
            data == self@.data,
    {
        self.data
    }

    /// Handle of the batch's texture.
    pub fn texture(&self) -> (handle: usize)
        ensures
            handle == self.texture_handle(),
    {
        self.texture
    }

    /// Number of instances in the batch.
    pub fn count(&self) -> (count: u64)
        ensures
            count == self@.count,
    {
        self.instance_buffer_count
    }

    /// Number of instances that the instance buffer has room for.
    pub fn capacity(&self) -> (capacity: u64)
        ensures
            capacity == self@.capacity,
    {
        self.instance_buffer_capacity
    }

    /// Whether `count` more instances can be added: their bytes, and those of
    /// all instances together, can be counted on this machine.
    pub fn can_add(&self, count: usize) -> (ok: bool)
        ensures
            ok == ((self@.count + count) * INSTANCE_SIZE <= u64::MAX && count * INSTANCE_SIZE
                <= usize::MAX),
    {
        let total = match self.instance_buffer_count.checked_add(count as u64) {
            Some(total) => total,
            None => {
                return false;
            },
        };
        total.checked_mul(INSTANCE_SIZE as u64).is_some() && count.checked_mul(
            INSTANCE_SIZE,
        ).is_some()
    }

    /// Adds batch instances to the image batch, one per matrix.
    ///
    /// The instances are written behind those that the batch holds. When the
    /// instance buffer has no room for them, a buffer of exactly the size
    /// needed takes its place, and what the old one held is copied over first.
    pub fn add_instance(&mut self, matrices: &Vec<[u8; 64]>) -> (upload: BatchUpload)
        requires
            old(self).wf(),
            (old(self)@.count + matrices.len()) * INSTANCE_SIZE <= u64::MAX,
            matrices.len() * INSTANCE_SIZE <= usize::MAX,
        ensures
            final(self)@ == old(self)@.add(matrices.len() as nat),
            final(self).wf(),
            final(self).texture_handle() == old(self).texture_handle(),
            upload.growth == old(self)@.growth(matrices.len() as nat),
            upload.write_offset == old(self)@.count * INSTANCE_SIZE,
            upload.data@ == packed(matrices@),
    {
        let old_count = self.instance_buffer_count;
        let new_count = old_count + (matrices.len() as u64);
        let mut growth: Option<BatchGrowth> = None;
        if new_count > self.instance_buffer_capacity {
            growth = Some(
                BatchGrowth {
                    size: new_count * (INSTANCE_SIZE as u64),
                    copy_size: old_count * (INSTANCE_SIZE as u64),
                },
            );
            self.instance_buffer_capacity = new_count;
        }
        let data = pack_matrices(matrices);
        self.instance_buffer_count = new_count;
        BatchUpload { growth, write_offset: old_count * (INSTANCE_SIZE as u64), data }
    }

    /// Pushes this image batch to the draw queue: one draw of as many
    /// instances as the batch holds, counted in thirty-two bits.
    pub fn draw(&self, render: &mut Render, transform: Transform)
        requires
            old(render).wf(),
            old(render)@.total_draws() < usize::MAX,
        ensures
            final(render)@ == old(render)@.draw(
                self@.data,
                self@.count as u32,
                transform,
                STANDARD_PIPELINE,
            ),
            final(render).wf(),
            final(render)@.total_draws() == old(render)@.total_draws() + 1,
    {
        render.push_data(
            self.data,
            #[verifier::truncate] (self.instance_buffer_count as u32),
            transform,
            STANDARD_PIPELINE,
        );
    }
}

/// The bytes of `matrices`, one matrix behind the other.
pub fn pack_matrices(matrices: &Vec<[u8; 64]>) -> (bytes: Vec<u8>)
    requires
        matrices.len() * INSTANCE_SIZE <= usize::MAX,
    ensures
        bytes@ == packed(matrices@),
{
    let mut bytes: Vec<u8> = Vec::new();
    let mut n: usize = 0;
    while n < matrices.len()
        invariant
            n <= matrices.len(),
            matrices.len() * INSTANCE_SIZE <= usize::MAX,
            bytes.len() == n * INSTANCE_SIZE,
            forall|i: int|
                0 <= i < bytes.len() ==> bytes[i] == matrices[i / INSTANCE_SIZE as int][i
                    % INSTANCE_SIZE as int],
        decreases matrices.len() - n,
    {
        let matrix = &matrices[n];
        let mut k: usize = 0;
        while k < INSTANCE_SIZE
            invariant
                k <= INSTANCE_SIZE,
                n < matrices.len(),
                matrix == matrices[n as int],
                matrices.len() * INSTANCE_SIZE <= usize::MAX,
                bytes.len() == n * INSTANCE_SIZE + k,
                forall|i: int|
                    0 <= i < bytes.len() ==> bytes[i] == matrices[i / INSTANCE_SIZE as int][i
                        % INSTANCE_SIZE as int],
            decreases INSTANCE_SIZE - k,
        {
            bytes.push(matrix[k]);
            k += 1;
        }
        n += 1;
    }
    proof {
        assert(bytes@ =~= packed(matrices@));
    }
    bytes
}

} // verus!
