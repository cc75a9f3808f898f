//! From a recorded queue to the passes of one frame.
//!
//! Every render group becomes one pass on its target, the groups in the order
//! they were created. A pass starts by clearing the target if the group has a
//! clear colour and keeps the target's contents otherwise, then draws the
//! group's records in the order they were pushed. Each draw binds the uniform
//! slot whose number is the record's number in that traversal, which is also
//! the slot its matrix is written to.

use vstd::prelude::*;
use crate::record::{
    draws_before, group_views, lemma_draws_before_monotonic, total_draws, DrawRecord, GroupView,
    PipelineData, RenderGroup, TargetId,
};
use crate::scalar::Rgba;
use crate::transform::Transform;

verus! {

/// What a pass does to its target before drawing.
#[derive(Clone, Copy, Debug, PartialEq, Eq, Structural)]
pub enum LoadOp {
    /// Fill the target with a colour.
    Clear(Rgba),
    /// Keep what the target holds.
    Load,
}

/// One indexed, instanced draw of a pass.
#[derive(Clone, Copy, Debug, PartialEq, Eq, Structural)]
pub struct DrawCommand {
    /// Entry of the pipeline table to draw with.
    pub pipeline_id: usize,
    /// The buffers and the bind group of the drawable.
    pub pipeline_data: PipelineData,
    /// Slot of the uniform pool that holds this draw's matrix.
    pub uniform_slot: u64,
    /// Number of instances to draw.
    pub instance_count: u32,
    /// Placement of the drawable, from which the slot's matrix is computed.
    pub transform: Transform,
}

/// One render pass.
pub struct PassPlan {
    pub target: TargetId,
    pub load: LoadOp,
    pub draws: Vec<DrawCommand>,
}

/// A render pass as a value.
pub struct PassView {
    pub target: TargetId,
    pub load: LoadOp,
    pub draws: Seq<DrawCommand>,
}

impl View for PassPlan {
    type V = PassView;

    open spec fn view(&self) -> PassView {
        PassView { target: self.target, load: self.load, draws: self.draws@ }
    }
}

/// The passes of a plan as values, in order.
pub open spec fn pass_views(passes: Seq<PassPlan>) -> Seq<PassView> {
    passes.map_values(|p: PassPlan| p@)
}

/// The load operation of a group with this clear colour.
pub open spec fn load_for(clear_color: Option<Rgba>) -> LoadOp {
    match clear_color {
        Some(color) => LoadOp::Clear(color),
        None => LoadOp::Load,
    }
}

/// The draw of `record` when it is record number `slot` of the frame.
pub open spec fn command_for(record: DrawRecord, slot: nat) -> DrawCommand {
    DrawCommand {
        pipeline_id: record.pipeline_id,
        pipeline_data: record.pipeline_data,
        uniform_slot: slot as u64,
        instance_count: record.instance_count,
        transform: record.transform,
    }
}

/// The pass of group `g`.
pub open spec fn pass_for(groups: Seq<GroupView>, g: int) -> PassView {
    PassView {
        target: groups[g].target_id,
        load: load_for(groups[g].clear_color),
        draws: Seq::new(
            groups[g].queue.len(),
            |j: int| command_for(groups[g].queue[j], (draws_before(groups, g) + j) as nat),
        ),
    }
}

/// The pass of a frame without groups: it touches the screen and changes
/// nothing, so that the frame can be presented.
pub open spec fn idle_pass() -> PassView {
    PassView { target: TargetId::Screen, load: LoadOp::Load, draws: Seq::empty() }
}

/// The passes of a frame: one per group, or the idle pass when there is none.
pub open spec fn passes_for(groups: Seq<GroupView>) -> Seq<PassView> {
    if groups.len() == 0 {
        seq![idle_pass()]
    } else {
        Seq::new(groups.len(), |g: int| pass_for(groups, g))
    }
}

/// Number of draw records in all groups.
pub fn total_draw_count(groups: &Vec<RenderGroup>) -> (total: usize)
    requires
        total_draws(group_views(groups@)) <= usize::MAX,
    ensures
        total == total_draws(group_views(groups@)),
{
    let ghost views = group_views(groups@);
    let mut total: usize = 0;
    let mut g: usize = 0;
    while g < groups.len()
        invariant
            g <= groups.len(),
            views == group_views(groups@),
            total == draws_before(views, g as int),
            total_draws(views) <= usize::MAX,
        decreases groups.len() - g,
    {
        proof {
            lemma_draws_before_monotonic(views, g + 1, groups.len() as int);
            assert(views[g as int].queue.len() == groups[g as int].queue.len());
        }
        total = total + groups[g].queue.len();
        g += 1;
    }
    total
}

/// The pass of group `g`, whose first record is record number `first` of the
/// frame.
fn plan_pass(groups: &Vec<RenderGroup>, g: usize, first: usize) -> (pass: PassPlan)
    requires
        g < groups.len(),
        first == draws_before(group_views(groups@), g as int),
        first + groups[g as int].queue.len() <= usize::MAX,
    ensures
        pass@ == pass_for(group_views(groups@), g as int),
{
    let ghost views = group_views(groups@);
    let group = &groups[g];
    let load = match group.clear_color {
        Some(color) => LoadOp::Clear(color),
        None => LoadOp::Load,
    };
    let mut draws: Vec<DrawCommand> = Vec::new();
    let mut j: usize = 0;
    while j < group.queue.len()
        invariant
            j <= group.queue.len(),
            g < groups.len(),
            group == groups[g as int],
            views == group_views(groups@),
            first == draws_before(views, g as int),
            first + group.queue.len() <= usize::MAX,
            draws.len() == j,
            forall|k: int|
                0 <= k < j ==> draws[k] == command_for(
                    views[g as int].queue[k],
                    (draws_before(views, g as int) + k) as nat,
                ),
        decreases group.queue.len() - j,
    {
        let record = &group.queue[j];
        assert(views[g as int].queue[j as int] == record@);
        draws.push(
            DrawCommand {
                pipeline_id: record.instance_data.pipeline_id,
                pipeline_data: record.pipeline_data,
                uniform_slot: (first + j) as u64,
                instance_count: record.instance_count,
                transform: record.instance_data.transform,
            },
        );
        j += 1;
    }
    let pass = PassPlan { target: group.target_id, load, draws };
    proof {
        assert(pass@.draws =~= pass_for(views, g as int).draws);
    }
    pass
}

/// The passes of a frame that draws `groups`.
pub fn plan_passes(groups: &Vec<RenderGroup>) -> (passes: Vec<PassPlan>)
    requires
        total_draws(group_views(groups@)) <= usize::MAX,
    ensures
        pass_views(passes@) == passes_for(group_views(groups@)),
{
    let ghost views = group_views(groups@);
    let mut passes: Vec<PassPlan> = Vec::new();
    if groups.len() == 0 {
        let idle = PassPlan { target: TargetId::Screen, load: LoadOp::Load, draws: Vec::new() };
        assert(idle@.draws =~= idle_pass().draws);
        passes.push(idle);
        assert(pass_views(passes@) =~= passes_for(views));
        return passes;
    }
    let mut first: usize = 0;
    let mut g: usize = 0;
    while g < groups.len()
        invariant
            g <= groups.len(),
            views == group_views(groups@),
            total_draws(views) <= usize::MAX,
            first == draws_before(views, g as int),
            passes.len() == g,
            forall|k: int| 0 <= k < g ==> (#[trigger] passes[k])@ == pass_for(views, k),
        decreases groups.len() - g,
    {
        proof {
            lemma_draws_before_monotonic(views, g + 1, groups.len() as int);
            assert(views[g as int].queue.len() == groups[g as int].queue.len());
        }
        let pass = plan_pass(groups, g, first);
        passes.push(pass);
        first = first + groups[g].queue.len();
        g += 1;
    }
    proof {
        assert(pass_views(passes@) =~= passes_for(views));
    }
    passes
}

} // verus!
