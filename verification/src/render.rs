//! The render queue: draw calls recorded for one frame.

use vstd::prelude::*;
use crate::canvas::Canvas;
use crate::record::{
    draws_before, group_views, lemma_draws_before_prefix, lemma_draws_before_update, total_draws,
    DrawData, DrawRecord, GroupView, PipelineData, RenderData, RenderGroup, TargetId,
};
use crate::scalar::Rgba;
use crate::shader::Shader;
use crate::transform::Transform;

verus! {

/// A render queue as a value.
pub struct RenderView {
    /// Active shader overrides, innermost last.
    pub shader_stack: Seq<usize>,
    /// The render groups, in the order they were created.
    pub groups: Seq<GroupView>,
    /// Indices into `groups` of the canvases being recorded into, innermost last.
    pub render_stack: Seq<usize>,
    /// Extra uniform bytes that the next draw records carry.
    pub shader_data: Seq<u8>,
}

impl RenderView {
    /// The queue at the start of a frame: one empty group for the screen.
    pub open spec fn initial() -> RenderView {
        RenderView {
            shader_stack: Seq::empty(),
            groups: seq![GroupView::empty(TargetId::Screen)],
            render_stack: Seq::empty(),
            shader_data: Seq::empty(),
        }
    }

    /// Group 0 exists and is the screen's, and every entry of the render stack
    /// names an existing group.
    pub open spec fn wf(self) -> bool {
        &&& self.groups.len() >= 1
        &&& self.groups[0].target_id == TargetId::Screen
        &&& forall|i: int|
            0 <= i < self.render_stack.len() ==> (#[trigger] self.render_stack[i]) < self.groups.len()
    }

    /// Index of the group that draws are recorded into.
    pub open spec fn current(self) -> int {
        if self.render_stack.len() == 0 {
            0
        } else {
            self.render_stack.last() as int
        }
    }

    /// The group that draws are recorded into.
    pub open spec fn current_group(self) -> GroupView {
        self.groups[self.current()]
    }

    /// The pipeline a draw uses whose drawable asks for `default_id`.
    pub open spec fn effective_pipeline(self, default_id: usize) -> usize {
        if self.shader_stack.len() == 0 {
            default_id
        } else {
            self.shader_stack.last()
        }
    }

    /// Number of draw records in all groups.
    pub open spec fn total_draws(self) -> nat {
        total_draws(self.groups)
    }

    /// The record that a draw call adds.
    pub open spec fn record_for(
        self,
        pipeline_data: PipelineData,
        instance_count: u32,
        transform: Transform,
        default_id: usize,
    ) -> DrawRecord {
        DrawRecord {
            pipeline_data,
            instance_count,
            pipeline_id: self.effective_pipeline(default_id),
            transform,
            uniform_extra: self.shader_data,
        }
    }

    /// After a draw call: its record is the last of the current group.
    pub open spec fn draw(
        self,
        pipeline_data: PipelineData,
        instance_count: u32,
        transform: Transform,
        default_id: usize,
    ) -> RenderView {
        let group = self.current_group();
        let record = self.record_for(pipeline_data, instance_count, transform, default_id);
        RenderView {
            groups: self.groups.update(
                self.current(),
                GroupView { queue: group.queue.push(record), ..group },
            ),
            ..self
        }
    }

    /// After `clear`: the current group clears to `color` and has no records.
    pub open spec fn clear(self, color: Rgba) -> RenderView {
        RenderView {
            groups: self.groups.update(
                self.current(),
                GroupView {
                    clear_color: Some(color),
                    queue: Seq::empty(),
                    ..self.current_group()
                },
            ),
            ..self
        }
    }

    /// After `push_shader`.
    pub open spec fn push_shader(self, pipeline_id: usize) -> RenderView {
        RenderView { shader_stack: self.shader_stack.push(pipeline_id), ..self }
    }

    /// After `pop_shader`: without an active shader nothing changes.
    pub open spec fn pop_shader(self) -> RenderView {
        if self.shader_stack.len() == 0 {
            self
        } else {
            RenderView { shader_stack: self.shader_stack.drop_last(), ..self }
        }
    }

    /// After `set_shader_data`.
    pub open spec fn set_shader_data(self, bytes: Seq<u8>) -> RenderView {
        RenderView { shader_data: bytes, ..self }
    }

    /// After `push_canvas`: a new last group for the canvas, which becomes the
    /// current one.
    pub open spec fn push_canvas(self, canvas_id: usize) -> RenderView {
        RenderView {
            groups: self.groups.push(GroupView::empty(TargetId::CanvasId(canvas_id))),
            render_stack: self.render_stack.push(self.groups.len() as usize),
            ..self
        }
    }

    /// After `pop_canvas`: without an active canvas nothing changes.
    pub open spec fn pop_canvas(self) -> RenderView {
        if self.render_stack.len() == 0 {
            self
        } else {
            RenderView { render_stack: self.render_stack.drop_last(), ..self }
        }
    }
}

/// Stores a record and information about draw calls that can then be submitted to the context.
pub struct Render {
    shader_stack: Vec<usize>,
    render_groups: Vec<RenderGroup>,
    render_stack: Vec<usize>,
    active_shader_data: Vec<u8>,
}

impl View for Render {
    type V = RenderView;

    closed spec fn view(&self) -> RenderView {
        RenderView {
            shader_stack: self.shader_stack@,
            groups: group_views(self.render_groups@),
            render_stack: self.render_stack@,
            shader_data: self.active_shader_data@,
        }
    }
}

impl Default for Render {
    fn default() -> (render: Render)
        ensures
            render@ == RenderView::initial(),
            render.wf(),
            render@.total_draws() == 0,
    {
        let mut render_groups: Vec<RenderGroup> = Vec::new();
        render_groups.push(RenderGroup::default());
        let render = Render {
            shader_stack: Vec::new(),
            render_groups,
            render_stack: Vec::new(),
            active_shader_data: Vec::new(),
        };
        proof {
            assert(render@.groups =~= seq![GroupView::empty(TargetId::Screen)]);
            assert(draws_before(render@.groups, 0) == 0);
            assert(draws_before(render@.groups, 1) == 0);
        }
        render
    }
}

impl Render {
    /// The queue is well formed and its records can be counted in a `usize`.
    pub open spec fn wf(&self) -> bool {
        &&& self@.wf()
        &&& self@.total_draws() <= usize::MAX
    }

    /// Creates a new render object.
    pub fn new() -> (render: Render)
        ensures
            render@ == RenderView::initial(),
            render.wf(),
            render@.total_draws() == 0,
    {
        Render::default()
    }

    /// Index of the group that draws are recorded into: the top of the render
    /// stack, or 0 when no canvas is active.
    pub fn current_index(&self) -> (idx: usize)
        requires
            self.wf(),
        ensures
            idx == self@.current(),
            idx < self@.groups.len(),
    {
        let n = self.render_stack.len();
        if n == 0 {
            0
        } else {
            self.render_stack[n - 1]
        }
    }

    /// The render groups, in the order they were created.
    pub fn groups(&self) -> (groups: &Vec<RenderGroup>)
        ensures
            group_views(groups@) == self@.groups,
    {
        &self.render_groups
    }

    /// Number of draw records in all groups.
    pub fn total_draw_count(&self) -> (total: usize)
        requires
            self.wf(),
        ensures
            total == self@.total_draws(),
    {
        crate::plan::total_draw_count(&self.render_groups)
    }

    /// The group that draws are recorded into.
    pub fn current_render_group(&self) -> (group: &RenderGroup)
        requires
            self.wf(),
        ensures
            group@ == self@.current_group(),
    {
        let idx = self.current_index();
        &self.render_groups[idx]
    }

    /// Records one draw call in the current group, after the records that the
    /// group already holds. The record uses the innermost active shader, or
    /// `default_pipeline_id` when none is active.
    pub fn push_data(
        &mut self,
        pipeline_data: PipelineData,
        instance_count: u32,
        transform: Transform,
        default_pipeline_id: usize,
    )
        requires
            old(self).wf(),
            old(self)@.total_draws() < usize::MAX,
        ensures
            final(self)@ == old(self)@.draw(
                pipeline_data,
                instance_count,
                transform,
                default_pipeline_id,
            ),
            final(self).wf(),
            final(self)@.total_draws() == old(self)@.total_draws() + 1,
    {
        let n = self.shader_stack.len();
        let pipeline_id = if n == 0 {
            default_pipeline_id
        } else {
            self.shader_stack[n - 1]
        };
        let uniform_extra = self.active_shader_data.clone();
        let idx = self.current_index();
        let record = RenderData {
            pipeline_data,
            instance_count,
            instance_data: DrawData { pipeline_id, transform, uniform_extra },
        };
        let ghost before = self@;
        let ghost added = before.record_for(
            pipeline_data,
            instance_count,
            transform,
            default_pipeline_id,
        );
        assert(record@ == added);
        self.render_groups[idx].queue.push(record);
        proof {
            let group = before.current_group();
            let grown = GroupView { queue: group.queue.push(added), ..group };
            assert(self.render_groups[idx as int]@.queue =~= group.queue.push(added));
            assert(self@.groups =~= before.groups.update(idx as int, grown));
            lemma_draws_before_update(before.groups, idx as int, grown, before.groups.len() as int);
        }
    }
}

/// Clears the current render target with a color.
///
/// Everything drawn into the current group so far is discarded: the clear
/// would paint over it.
pub fn clear(render: &mut Render, color: Rgba)
    requires
        old(render).wf(),
    ensures
        final(render)@ == old(render)@.clear(color),
        final(render).wf(),
        final(render)@.total_draws() + old(render)@.current_group().queue.len() == old(
            render,
        )@.total_draws(),
{
    let idx = render.current_index();
    let ghost before = render@;
    render.render_groups[idx].clear_color = Some(color);
    render.render_groups[idx].queue.clear();
    proof {
        let cleared = GroupView {
            clear_color: Some(color),
            queue: Seq::empty(),
            ..before.current_group()
        };
        assert(render.render_groups[idx as int]@.queue =~= Seq::<DrawRecord>::empty());
        assert(render@.groups =~= before.groups.update(idx as int, cleared));
        lemma_draws_before_update(before.groups, idx as int, cleared, before.groups.len() as int);
    }
}

/// Sets an active shader. Use `pop_shader` to unset it.
pub fn push_shader(render: &mut Render, shader: &Shader)
    requires
        old(render).wf(),
    ensures
        final(render)@ == old(render)@.push_shader(shader.id()),
        final(render).wf(),
        final(render)@.total_draws() == old(render)@.total_draws(),
{
    render.shader_stack.push(shader.pipeline_id());
    assert(render@.groups =~= old(render)@.groups);
    assert(render@.render_stack == old(render)@.render_stack);
}

/// Removes the active shader and goes back to the previous one. Does nothing
/// when no shader is active.
pub fn pop_shader(render: &mut Render)
    requires
        old(render).wf(),
    ensures
        final(render)@ == old(render)@.pop_shader(),
        final(render).wf(),
        final(render)@.total_draws() == old(render)@.total_draws(),
{
    render.shader_stack.pop();
    assert(render@.groups =~= old(render)@.groups);
    assert(render@.render_stack == old(render)@.render_stack);
}

/// Sets the extra uniform bytes that the draw records from now on carry.
pub fn set_shader_data(render: &mut Render, data: Vec<u8>)
    requires
        old(render).wf(),
    ensures
        final(render)@ == old(render)@.set_shader_data(data@),
        final(render).wf(),
        final(render)@.total_draws() == old(render)@.total_draws(),
{
    render.active_shader_data = data;
    assert(render@.groups =~= old(render)@.groups);
    assert(render@.render_stack == old(render)@.render_stack);
}

/// Sets an active canvas. Use `pop_canvas` to unset it.
pub fn push_canvas(render: &mut Render, canvas: &Canvas)
    requires
        old(render).wf(),
        old(render)@.groups.len() < usize::MAX,
    ensures
        final(render)@ == old(render)@.push_canvas(canvas.id()),
        final(render).wf(),
        final(render)@.total_draws() == old(render)@.total_draws(),
{
    let ghost before = render@;
    let index = render.render_groups.len();
    render.render_groups.push(RenderGroup::new(TargetId::CanvasId(canvas.canvas_id())));
    render.render_stack.push(index);
    proof {
        let added = GroupView::empty(TargetId::CanvasId(canvas.id()));
        assert(render@.groups =~= before.groups.push(added));
        lemma_draws_before_prefix(before.groups, render@.groups, before.groups.len() as int);
    }
}

/// Removes the active canvas and goes back to the previous one. Does nothing
/// when no canvas is active.
pub fn pop_canvas(render: &mut Render)
    requires
        old(render).wf(),
    ensures
        final(render)@ == old(render)@.pop_canvas(),
        final(render).wf(),
        final(render)@.total_draws() == old(render)@.total_draws(),
{
    render.render_stack.pop();
    proof {
        assert(render@.groups =~= old(render)@.groups);
        assert forall|i: int| 0 <= i < render@.render_stack.len() implies (
        #[trigger] render@.render_stack[i]) < render@.groups.len() by {
            assert(render@.render_stack[i] == old(render)@.render_stack[i]);
        }
    }
}

} // verus!
