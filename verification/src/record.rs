//! What a queue holds: draw records, grouped by render target.

use vstd::prelude::*;
use crate::scalar::{Rgba, Vector2};
use crate::transform::Transform;

verus! {

/// The device objects behind one drawable, by handle.
///
/// Every draw call of the same drawable carries the same bundle.
#[derive(Clone, Copy, Debug, PartialEq, Eq, Structural)]
pub struct PipelineData {
    /// Handle of the vertex and index buffer pair.
    pub mesh_buffer: usize,
    /// Handle of the texture and sampler bind group.
    pub bind_group: usize,
    /// Handle of the per-instance buffer.
    pub instance_buffer: usize,
    /// Extent of the drawable in its own space; the pivot scales by it.
    pub object_dimensions: Vector2,
}

/// What is particular to one draw call.
pub struct DrawData {
    pub pipeline_id: usize,
    pub transform: Transform,
    /// Bytes a custom shader receives after the transform.
    pub uniform_extra: Vec<u8>,
}

/// One queued draw call.
pub struct RenderData {
    pub pipeline_data: PipelineData,
    pub instance_count: u32,
    pub instance_data: DrawData,
}

/// A draw record as a value: what `RenderData` stands for.
pub struct DrawRecord {
    pub pipeline_data: PipelineData,
    pub instance_count: u32,
    pub pipeline_id: usize,
    pub transform: Transform,
    pub uniform_extra: Seq<u8>,
}

impl View for RenderData {
    type V = DrawRecord;

    open spec fn view(&self) -> DrawRecord {
        DrawRecord {
            pipeline_data: self.pipeline_data,
            instance_count: self.instance_count,
            pipeline_id: self.instance_data.pipeline_id,
            transform: self.instance_data.transform,
            uniform_extra: self.instance_data.uniform_extra@,
        }
    }
}

/// Where a group's draws end up.
#[derive(Clone, Copy, Debug, PartialEq, Eq, Structural)]
pub enum TargetId {
    /// The presentation surface.
    Screen,
    /// The off-screen canvas with this id.
    CanvasId(usize),
}

impl Default for TargetId {
    fn default() -> (t: TargetId)
        ensures
            t == TargetId::Screen,
    {
        TargetId::Screen
    }
}

/// The draws recorded for one render target, with its clear policy.
pub struct RenderGroup {
    pub target_id: TargetId,
    pub clear_color: Option<Rgba>,
    pub queue: Vec<RenderData>,
}

/// A render group as a value.
pub struct GroupView {
    pub target_id: TargetId,
    pub clear_color: Option<Rgba>,
    pub queue: Seq<DrawRecord>,
}

impl GroupView {
    /// A group for `target_id` that clears nothing and draws nothing.
    pub open spec fn empty(target_id: TargetId) -> GroupView {
        GroupView { target_id, clear_color: None, queue: Seq::empty() }
    }
}

impl View for RenderGroup {
    type V = GroupView;

    open spec fn view(&self) -> GroupView {
        GroupView {
            target_id: self.target_id,
            clear_color: self.clear_color,
            queue: self.queue@.map_values(|r: RenderData| r@),
        }
    }
}

impl RenderGroup {
    /// A group for `target_id` with no clear colour and no draws.
    pub fn new(target_id: TargetId) -> (g: RenderGroup)
        ensures
            g@ == GroupView::empty(target_id),
    {
        let g = RenderGroup { target_id, clear_color: None, queue: Vec::new() };
        assert(g@.queue =~= Seq::<DrawRecord>::empty());
        g
    }
}

impl Default for RenderGroup {
    fn default() -> (g: RenderGroup)
        ensures
            g@ == GroupView::empty(TargetId::Screen),
    {
        RenderGroup::new(TargetId::Screen)
    }
}

/// The groups of a queue as values, in order.
pub open spec fn group_views(groups: Seq<RenderGroup>) -> Seq<GroupView> {
    groups.map_values(|g: RenderGroup| g@)
}

/// Number of draw records in the groups before group `g`.
///
/// Records are numbered through all groups, group by group in the order the
/// groups were created and, within a group, in the order they were pushed.
/// Record `j` of group `g` has the number `draws_before(groups, g) + j`.
pub open spec fn draws_before(groups: Seq<GroupView>, g: int) -> nat
    decreases g,
{
    if g <= 0 {
        0
    } else {
        draws_before(groups, g - 1) + groups[g - 1].queue.len()
    }
}

/// Number of draw records in all groups.
pub open spec fn total_draws(groups: Seq<GroupView>) -> nat {
    draws_before(groups, groups.len() as int)
}

/// The count before a group does not depend on that group or on later ones.
pub proof fn lemma_draws_before_prefix(a: Seq<GroupView>, b: Seq<GroupView>, g: int)
    requires
        0 <= g <= a.len(),
        g <= b.len(),
        forall|i: int| 0 <= i < g ==> a[i].queue.len() == b[i].queue.len(),
    ensures
        draws_before(a, g) == draws_before(b, g),
    decreases g,
{
    if g > 0 {
        lemma_draws_before_prefix(a, b, g - 1);
    }
}

/// Counts grow with the group index.
pub proof fn lemma_draws_before_monotonic(groups: Seq<GroupView>, g: int, h: int)
    requires
        0 <= g <= h,
    ensures
        draws_before(groups, g) <= draws_before(groups, h),
    decreases h,
{
    if g < h {
        lemma_draws_before_monotonic(groups, g, h - 1);
    }
}

/// Replacing one group changes the counts behind it by the difference of the
/// two queue lengths.
pub proof fn lemma_draws_before_update(groups: Seq<GroupView>, at: int, group: GroupView, g: int)
    requires
        0 <= at < groups.len(),
        0 <= g <= groups.len(),
    ensures
        g <= at ==> draws_before(groups.update(at, group), g) == draws_before(groups, g),
        g > at ==> draws_before(groups.update(at, group), g) + groups[at].queue.len()
            == draws_before(groups, g) + group.queue.len(),
    decreases g,
{
    if g > 0 {
        lemma_draws_before_update(groups, at, group, g - 1);
    }
}

} // verus!
