//! The graphics context: what has been created, and how a frame is submitted.
//!
//! Device objects live in tables, one per kind, and are named by their index.
//! The context counts what each table holds and hands out the next index when
//! something is created; tables only grow. Drawables and draw records carry
//! such indices, so that a queue can be checked against the context before it
//! is turned into a frame.

use vstd::prelude::*;
use crate::plan::{command_for, pass_views, passes_for, plan_passes, PassPlan, PassView};
use crate::record::{
    draws_before, group_views, lemma_draws_before_monotonic, total_draws, DrawRecord, GroupView,
    PipelineData, RenderGroup, TargetId,
};
use crate::render::Render;
use crate::text::Font;
use crate::uniform::{UniformPool, UniformPoolView, UNIFORM_SIZE};

verus! {

/// Entry of the pipeline table that textured quads and meshes are drawn with.
pub const STANDARD_PIPELINE: usize = 0;

/// Entry of the pipeline table that text is drawn with.
pub const TEXT_PIPELINE: usize = 1;

/// A graphics context as a value.
pub struct ContextView {
    /// Number of canvases created.
    pub canvases: nat,
    /// Number of pipelines created, the two built-in ones included.
    pub pipelines: nat,
    /// Number of mesh buffers created.
    pub mesh_buffers: nat,
    /// Number of texture bind groups created.
    pub bind_groups: nat,
    /// Number of instance buffers created.
    pub buffers: nat,
    /// Number of textures created.
    pub textures: nat,
    /// Number of fonts loaded, the built-in one included.
    pub fonts: nat,
    /// Handle of the unit quad's mesh buffer.
    pub quad_mesh_buffer: usize,
    /// Handle of the instance buffer that holds one identity matrix.
    pub identity_instance_buffer: usize,
    /// The uniform pool.
    pub uniforms: UniformPoolView,
}

impl ContextView {
    /// The context right after its creation, with slots of `alignment` bytes:
    /// the two built-in pipelines, the unit quad, the identity instance buffer
    /// and the built-in font exist, and nothing else.
    pub open spec fn initial(alignment: nat) -> ContextView {
        ContextView {
            canvases: 0,
            pipelines: 2,
            mesh_buffers: 1,
            bind_groups: 0,
            buffers: 1,
            textures: 0,
            fonts: 1,
            quad_mesh_buffer: 0,
            identity_instance_buffer: 0,
            uniforms: UniformPoolView::zeroed(alignment, 0),
        }
    }

    /// The built-in objects exist and the uniform pool is well formed.
    pub open spec fn wf(self) -> bool {
        &&& self.pipelines >= 2
        &&& self.fonts >= 1
        &&& self.quad_mesh_buffer < self.mesh_buffers
        &&& self.identity_instance_buffer < self.buffers
        &&& self.uniforms.wf()
    }

    /// The buffers and the bind group that `data` names exist.
    pub open spec fn resolves_data(self, data: PipelineData) -> bool {
        &&& data.mesh_buffer < self.mesh_buffers
        &&& data.bind_group < self.bind_groups
        &&& data.instance_buffer < self.buffers
    }

    /// Every object that `record` names exists.
    pub open spec fn resolves_record(self, record: DrawRecord) -> bool {
        &&& record.pipeline_id < self.pipelines
        &&& self.resolves_data(record.pipeline_data)
    }

    /// This context is `earlier` or came from it by creating objects: every
    /// table holds at least what it held, and the built-in objects are the
    /// same.
    pub open spec fn extends(self, earlier: ContextView) -> bool {
        &&& self.canvases >= earlier.canvases
        &&& self.pipelines >= earlier.pipelines
        &&& self.mesh_buffers >= earlier.mesh_buffers
        &&& self.bind_groups >= earlier.bind_groups
        &&& self.buffers >= earlier.buffers
        &&& self.textures >= earlier.textures
        &&& self.fonts >= earlier.fonts
        &&& self.quad_mesh_buffer == earlier.quad_mesh_buffer
        &&& self.identity_instance_buffer == earlier.identity_instance_buffer
    }

    /// The target of a group exists.
    pub open spec fn resolves_target(self, target: TargetId) -> bool {
        match target {
            TargetId::Screen => true,
            TargetId::CanvasId(id) => id < self.canvases,
        }
    }

    /// The target of `group` and every object that its records name exist.
    pub open spec fn resolves_group(self, group: GroupView) -> bool {
        &&& self.resolves_target(group.target_id)
        &&& forall|j: int|
            0 <= j < group.queue.len() ==> self.resolves_record(#[trigger] group.queue[j])
    }

    /// Every group can be replayed: nothing in `groups` names an object that
    /// does not exist.
    pub open spec fn resolves(self, groups: Seq<GroupView>) -> bool {
        forall|g: int| 0 <= g < groups.len() ==> self.resolves_group(#[trigger] groups[g])
    }

    /// The uniform pool can take `total` slots: it has them, or the pool it
    /// grows to can be addressed on this machine.
    pub open spec fn can_hold(self, total: nat) -> bool {
        total > self.uniforms.capacity ==> crate::uniform::grown_capacity(total)
            * self.uniforms.alignment <= usize::MAX
    }
}

/// What a submission asks of the device.
pub struct FramePlan {
    /// Whether the uniform pool grew: the uniform buffer and the bind groups
    /// of its slots have to be created anew, one bind group per slot of the
    /// pool, each at its slot's offset and one slot wide.
    pub grew: bool,
    /// The passes to encode, in order.
    pub passes: Vec<PassPlan>,
}

/// Whether one of the passes draws to the screen.
pub open spec fn touches_screen(passes: Seq<PassView>) -> bool {
    exists|g: int| 0 <= g < passes.len() && (#[trigger] passes[g]).target == TargetId::Screen
}

/// The slot that the plan binds for a record is the record's number in the
/// traversal of the groups, and lies below the number of records.
pub proof fn lemma_plan_slots(groups: Seq<GroupView>, g: int, j: int)
    requires
        0 <= g < groups.len(),
        0 <= j < groups[g].queue.len(),
        total_draws(groups) <= u64::MAX,
    ensures
        passes_for(groups).len() == groups.len(),
        passes_for(groups)[g].draws.len() == groups[g].queue.len(),
        passes_for(groups)[g].draws[j] == command_for(
            groups[g].queue[j],
            (draws_before(groups, g) + j) as nat,
        ),
        passes_for(groups)[g].draws[j].uniform_slot == draws_before(groups, g) + j,
        draws_before(groups, g) + j < total_draws(groups),
{
    lemma_draws_before_monotonic(groups, g + 1, groups.len() as int);
}

/// Uniform slot consistency. When the matrices of a frame's records are
/// written to the pool in the order of the records, matrix `k` into slot `k`,
/// then the slot that the plan binds for record `j` of group `g` holds the
/// matrix of that record.
pub proof fn lemma_slot_consistency(
    groups: Seq<GroupView>,
    matrices: Seq<Seq<u8>>,
    pool: UniformPoolView,
    g: int,
    j: int,
)
    requires
        0 <= g < groups.len(),
        0 <= j < groups[g].queue.len(),
        matrices.len() == total_draws(groups),
        total_draws(groups) <= u64::MAX,
        forall|k: nat| k < matrices.len() ==> #[trigger] pool.slot_bytes(k) == matrices[k as int],
    ensures
        pool.slot_bytes(passes_for(groups)[g].draws[j].uniform_slot as nat) == matrices[draws_before(
            groups,
            g,
        ) + j],
{
    lemma_plan_slots(groups, g, j);
    let k = (draws_before(groups, g) + j) as nat;
    assert(pool.slot_bytes(k) == matrices[k as int]);
}

/// Context for graphics: the tables of what has been created, and the
/// uniform pool.
pub struct GraphicsContext {
    canvas_count: usize,
    pipeline_count: usize,
    mesh_buffer_count: usize,
    bind_group_count: usize,
    buffer_count: usize,
    texture_count: usize,
    font_count: usize,
    quad_mesh_buffer: usize,
    identity_instance_buffer: usize,
    uniforms: UniformPool,
}

impl View for GraphicsContext {
    type V = ContextView;

    closed spec fn view(&self) -> ContextView {
        ContextView {
            canvases: self.canvas_count as nat,
            pipelines: self.pipeline_count as nat,
            mesh_buffers: self.mesh_buffer_count as nat,
            bind_groups: self.bind_group_count as nat,
            buffers: self.buffer_count as nat,
            textures: self.texture_count as nat,
            fonts: self.font_count as nat,
            quad_mesh_buffer: self.quad_mesh_buffer,
            identity_instance_buffer: self.identity_instance_buffer,
            uniforms: self.uniforms@,
        }
    }
}

impl GraphicsContext {
    /// The context is well formed.
    pub open spec fn wf(&self) -> bool {
        self@.wf()
    }

    /// Creates a new graphics context for a device whose uniform offsets are
    /// multiples of `uniform_alignment` bytes.
    pub fn new(uniform_alignment: u32) -> (ctx: GraphicsContext)
        requires
            uniform_alignment >= UNIFORM_SIZE,
        ensures
            ctx@ == ContextView::initial(uniform_alignment as nat),
            ctx.wf(),
    {
        GraphicsContext {
            canvas_count: 0,
            pipeline_count: 2,
            mesh_buffer_count: 1,
            bind_group_count: 0,
            buffer_count: 1,
            texture_count: 0,
            font_count: 1,
            quad_mesh_buffer: 0,
            identity_instance_buffer: 0,
            uniforms: UniformPool::new(uniform_alignment),
        }
    }

    /// The uniform pool.
    pub fn uniforms(&self) -> (pool: &UniformPool)
        ensures
            pool@ == self@.uniforms,
    {
        &self.uniforms
    }

    /// Handle of the unit quad's mesh buffer.
    pub fn quad_mesh_buffer(&self) -> (handle: usize)
        ensures
            handle == self@.quad_mesh_buffer,
    {
        self.quad_mesh_buffer
    }

    /// Handle of the instance buffer that holds one identity matrix.
    pub fn identity_instance_buffer(&self) -> (handle: usize)
        ensures
            handle == self@.identity_instance_buffer,
    {
        self.identity_instance_buffer
    }

    /// The built-in font: the first entry of the font table.
    pub fn default_font(&self) -> (font: Font)
        ensures
            font.index() == 0,
    {
        Font::with_id(0)
    }

    /// Number of canvases created.
    pub fn canvas_count(&self) -> (count: usize)
        ensures
            count == self@.canvases,
    {
        self.canvas_count
    }

    /// Number of pipelines created.
    pub fn pipeline_count(&self) -> (count: usize)
        ensures
            count == self@.pipelines,
    {
        self.pipeline_count
    }

    /// Number of mesh buffers created.
    pub fn mesh_buffer_count(&self) -> (count: usize)
        ensures
            count == self@.mesh_buffers,
    {
        self.mesh_buffer_count
    }

    /// Number of texture bind groups created.
    pub fn bind_group_count(&self) -> (count: usize)
        ensures
            count == self@.bind_groups,
    {
        self.bind_group_count
    }

    /// Number of instance buffers created.
    pub fn buffer_count(&self) -> (count: usize)
        ensures
            count == self@.buffers,
    {
        self.buffer_count
    }

    /// Number of textures created.
    pub fn texture_count(&self) -> (count: usize)
        ensures
            count == self@.textures,
    {
        self.texture_count
    }

    /// Number of fonts loaded.
    pub fn font_count(&self) -> (count: usize)
        ensures
            count == self@.fonts,
    {
        self.font_count
    }

    /// Enters a new canvas into the canvas table and returns its id.
    pub fn register_canvas(&mut self) -> (id: usize)
        requires
            old(self).wf(),
            old(self)@.canvases < usize::MAX,
        ensures
            id == old(self)@.canvases,
            final(self)@ == (ContextView { canvases: old(self)@.canvases + 1, ..old(self)@ }),
            final(self).wf(),
    {
        let id = self.canvas_count;
        self.canvas_count = id + 1;
        id
    }

    /// Enters a new pipeline into the pipeline table and returns its id.
    pub fn register_pipeline(&mut self) -> (id: usize)
        requires
            old(self).wf(),
            old(self)@.pipelines < usize::MAX,
        ensures
            id == old(self)@.pipelines,
            final(self)@ == (ContextView { pipelines: old(self)@.pipelines + 1, ..old(self)@ }),
            final(self).wf(),
    {
        let id = self.pipeline_count;
        self.pipeline_count = id + 1;
        id
    }

    /// Enters a new mesh buffer into its table and returns its handle.
    pub fn register_mesh_buffer(&mut self) -> (handle: usize)
        requires
            old(self).wf(),
            old(self)@.mesh_buffers < usize::MAX,
        ensures
            handle == old(self)@.mesh_buffers,
            final(self)@ == (ContextView {
                mesh_buffers: old(self)@.mesh_buffers + 1,
                ..old(self)@
            }),
            final(self).wf(),
    {
        let handle = self.mesh_buffer_count;
        self.mesh_buffer_count = handle + 1;
        handle
    }

    /// Enters a new texture bind group into its table and returns its handle.
    pub fn register_bind_group(&mut self) -> (handle: usize)
        requires
            old(self).wf(),
            old(self)@.bind_groups < usize::MAX,
        ensures
            handle == old(self)@.bind_groups,
            final(self)@ == (ContextView { bind_groups: old(self)@.bind_groups + 1, ..old(self)@ }),
            final(self).wf(),
    {
        let handle = self.bind_group_count;
        self.bind_group_count = handle + 1;
        handle
    }

    /// Enters a new instance buffer into its table and returns its handle.
    pub fn register_buffer(&mut self) -> (handle: usize)
        requires
            old(self).wf(),
            old(self)@.buffers < usize::MAX,
        ensures
            handle == old(self)@.buffers,
            final(self)@ == (ContextView { buffers: old(self)@.buffers + 1, ..old(self)@ }),
            final(self).wf(),
    {
        let handle = self.buffer_count;
        self.buffer_count = handle + 1;
        handle
    }

    /// Enters a new texture into its table and returns its handle.
    pub fn register_texture(&mut self) -> (handle: usize)
        requires
            old(self).wf(),
            old(self)@.textures < usize::MAX,
        ensures
            handle == old(self)@.textures,
            final(self)@ == (ContextView { textures: old(self)@.textures + 1, ..old(self)@ }),
            final(self).wf(),
    {
        let handle = self.texture_count;
        self.texture_count = handle + 1;
        handle
    }

    /// Enters a newly loaded font into the font table and returns its id.
    pub fn register_font(&mut self) -> (id: usize)
        requires
            old(self).wf(),
            old(self)@.fonts < usize::MAX,
        ensures
            id == old(self)@.fonts,
            final(self)@ == (ContextView { fonts: old(self)@.fonts + 1, ..old(self)@ }),
            final(self).wf(),
    {
        let id = self.font_count;
        self.font_count = id + 1;
        id
    }

    /// Puts the matrix of one draw into its slot of the uniform pool.
    pub fn stage_uniform(&mut self, slot: u64, matrix: &[u8; 64])
        requires
            old(self).wf(),
            slot < old(self)@.uniforms.capacity,
        ensures
            final(self)@ == (ContextView {
                uniforms: old(self)@.uniforms.with_slot(slot as nat, matrix@),
                ..old(self)@
            }),
            final(self).wf(),
    {
        self.uniforms.write_slot(slot, matrix);
    }

    /// Whether every object that one group names exists.
    fn resolves_group(&self, group: &RenderGroup) -> (ok: bool)
        ensures
            ok == self@.resolves_group(group@),
    {
        let target_ok = match group.target_id {
            TargetId::Screen => true,
            TargetId::CanvasId(id) => id < self.canvas_count,
        };
        if !target_ok {
            return false;
        }
        let mut j: usize = 0;
        while j < group.queue.len()
            invariant
                j <= group.queue.len(),
                self@.resolves_target(group@.target_id),
                forall|k: int| 0 <= k < j ==> self@.resolves_record(#[trigger] group@.queue[k]),
            decreases group.queue.len() - j,
        {
            let record = &group.queue[j];
            assert(group@.queue[j as int] == record@);
            let ok = record.instance_data.pipeline_id < self.pipeline_count
                && record.pipeline_data.mesh_buffer < self.mesh_buffer_count
                && record.pipeline_data.bind_group < self.bind_group_count
                && record.pipeline_data.instance_buffer < self.buffer_count;
            if !ok {
                assert(!self@.resolves_record(group@.queue[j as int]));
                return false;
            }
            j += 1;
        }
        true
    }

    /// Whether `render` can be submitted to this context: every canvas,
    /// pipeline, buffer and bind group that it names exists here, and the
    /// uniform pool can take one slot for each of its draw records.
    pub fn can_submit(&self, render: &Render) -> (ok: bool)
        requires
            self.wf(),
            render.wf(),
        ensures
            ok == (self@.resolves(render@.groups) && self@.can_hold(render@.total_draws())),
    {
        let groups = render.groups();
        let ghost views = group_views(groups@);
        let mut g: usize = 0;
        while g < groups.len()
            invariant
                g <= groups.len(),
                views == group_views(groups@),
                views == render@.groups,
                forall|k: int| 0 <= k < g ==> self@.resolves_group(#[trigger] views[k]),
            decreases groups.len() - g,
        {
            assert(views[g as int] == groups[g as int]@);
            if !self.resolves_group(&groups[g]) {
                assert(!self@.resolves_group(render@.groups[g as int]));
                return false;
            }
            g += 1;
        }
        let total = crate::plan::total_draw_count(groups);
        self.uniforms.can_reserve(total as u64)
    }

    /// Submits the render object: makes room in the uniform pool for its draw
    /// records and returns the passes that draw it.
    ///
    /// The pool grows only when it has fewer slots than the queue has records,
    /// and then once, before anything is written. There is one pass per render
    /// group, in the order the groups were created; a group's draws come in the
    /// order they were recorded, and each binds the slot of its number in that
    /// traversal. One of the passes draws to the screen, so the frame is to be
    /// presented.
    pub fn submit_render(&mut self, render: Render) -> (plan: FramePlan)
        requires
            old(self).wf(),
            render.wf(),
            old(self)@.resolves(render@.groups),
            old(self)@.can_hold(render@.total_draws()),
        ensures
            plan.grew == (render@.total_draws() > old(self)@.uniforms.capacity),
            pass_views(plan.passes@) == passes_for(render@.groups),
            final(self)@ == (ContextView {
                uniforms: old(self)@.uniforms.reserve(render@.total_draws()),
                ..old(self)@
            }),
            final(self).wf(),
            render@.total_draws() <= final(self)@.uniforms.capacity,
            touches_screen(pass_views(plan.passes@)),
    {
        let groups = render.groups();
        let total = crate::plan::total_draw_count(groups);
        let grew = self.uniforms.reserve(total as u64);
        let passes = plan_passes(groups);
        proof {
            assert(pass_views(passes@)[0].target == TargetId::Screen);
        }
        FramePlan { grew, passes }
    }
}

} // verus!
