//! What holds of every queue and every pool.
//!
//! The statements are about the values that queues, plans and pools stand
//! for, so they hold of every run of the functions whose contracts speak of
//! those values.

use vstd::prelude::*;
use crate::canvas::Canvas;
use crate::context::ContextView;
use crate::image::Image;
use crate::image_batch::ImageBatch;
use crate::mesh::Mesh;
use crate::text::Text;
use crate::plan::{command_for, passes_for, LoadOp};
use crate::record::{draws_before, DrawRecord, GroupView, PipelineData, TargetId};
use crate::render::RenderView;
use crate::scalar::Rgba;
use crate::transform::Transform;
use crate::uniform::{grown_capacity, lemma_slot_within, UniformPoolView, UNIFORM_SIZE};

verus! {

/// The arguments of one draw call.
pub struct DrawCall {
    pub pipeline_data: PipelineData,
    pub instance_count: u32,
    pub transform: Transform,
    pub default_pipeline_id: usize,
}

impl RenderView {
    /// After the draw call `call`.
    pub open spec fn draw_call(self, call: DrawCall) -> RenderView {
        self.draw(call.pipeline_data, call.instance_count, call.transform, call.default_pipeline_id)
    }

    /// The record that the draw call `call` adds.
    pub open spec fn record_for_call(self, call: DrawCall) -> DrawRecord {
        self.record_for(
            call.pipeline_data,
            call.instance_count,
            call.transform,
            call.default_pipeline_id,
        )
    }

    /// After the draw calls `calls`, made in this order.
    pub open spec fn draw_all(self, calls: Seq<DrawCall>) -> RenderView
        decreases calls.len(),
    {
        if calls.len() == 0 {
            self
        } else {
            self.draw_all(calls.drop_last()).draw_call(calls.last())
        }
    }
}

/// Every operation of the queue keeps it well formed.
pub proof fn lemma_operations_keep_wf(
    queue: RenderView,
    call: DrawCall,
    color: Rgba,
    pipeline_id: usize,
    canvas_id: usize,
    bytes: Seq<u8>,
)
    requires
        queue.wf(),
        queue.groups.len() < usize::MAX,
    ensures
        RenderView::initial().wf(),
        queue.draw_call(call).wf(),
        queue.clear(color).wf(),
        queue.push_shader(pipeline_id).wf(),
        queue.pop_shader().wf(),
        queue.set_shader_data(bytes).wf(),
        queue.push_canvas(canvas_id).wf(),
        queue.pop_canvas().wf(),
{
    let pushed = queue.push_canvas(canvas_id);
    assert forall|i: int| 0 <= i < pushed.render_stack.len() implies (
    #[trigger] pushed.render_stack[i]) < pushed.groups.len() by {
        if i < queue.render_stack.len() {
            assert(pushed.render_stack[i] == queue.render_stack[i]);
        }
    }
    let popped = queue.pop_canvas();
    assert forall|i: int| 0 <= i < popped.render_stack.len() implies (
    #[trigger] popped.render_stack[i]) < popped.groups.len() by {
        assert(popped.render_stack[i] == queue.render_stack[i]);
    }
}

/// Draw calls add records to the current group only, behind the records it
/// holds, one per call and in the order of the calls; scopes stay as they are.
pub proof fn lemma_draws_append(queue: RenderView, calls: Seq<DrawCall>)
    requires
        queue.wf(),
    ensures
        queue.draw_all(calls).wf(),
        queue.draw_all(calls).shader_stack == queue.shader_stack,
        queue.draw_all(calls).render_stack == queue.render_stack,
        queue.draw_all(calls).shader_data == queue.shader_data,
        queue.draw_all(calls).groups.len() == queue.groups.len(),
        forall|g: int|
            0 <= g < queue.groups.len() && g != queue.current() ==> (
            #[trigger] queue.draw_all(calls).groups[g]) == queue.groups[g],
        queue.draw_all(calls).current_group().target_id == queue.current_group().target_id,
        queue.draw_all(calls).current_group().clear_color == queue.current_group().clear_color,
        queue.draw_all(calls).current_group().queue == queue.current_group().queue
            + calls.map_values(|call: DrawCall| queue.record_for_call(call)),
    decreases calls.len(),
{
    let added = calls.map_values(|call: DrawCall| queue.record_for_call(call));
    if calls.len() == 0 {
        assert(queue.current_group().queue + added =~= queue.current_group().queue);
    } else {
        let front = calls.drop_last();
        let before = queue.draw_all(front);
        lemma_draws_append(queue, front);
        let front_added = front.map_values(|call: DrawCall| queue.record_for_call(call));
        assert(before.record_for_call(calls.last()) == queue.record_for_call(calls.last()));
        assert(added =~= front_added.push(queue.record_for_call(calls.last())));
        assert(queue.draw_all(calls).current_group().queue =~= queue.current_group().queue
            + added);
    }
}

/// Ordering. The draws of a group are replayed in the order of the calls:
/// after the draw calls `calls`, draw `n + k` of the current group's pass is
/// the draw of call `k`, where `n` is the number of records the group held
/// before.
pub proof fn lemma_replay_is_fifo(queue: RenderView, calls: Seq<DrawCall>, k: int)
    requires
        queue.wf(),
        0 <= k < calls.len(),
    ensures
        ({
            let after = queue.draw_all(calls);
            let g = queue.current();
            let n = queue.current_group().queue.len() as int;
            let pass = passes_for(after.groups)[g];
            &&& pass.draws.len() == n + calls.len()
            &&& pass.draws[n + k] == command_for(
                queue.record_for_call(calls[k]),
                (draws_before(after.groups, g) + n + k) as nat,
            )
            &&& forall|i: int|
                0 <= i < n ==> #[trigger] pass.draws[i] == command_for(
                    queue.current_group().queue[i],
                    (draws_before(after.groups, g) + i) as nat,
                )
        }),
{
    lemma_draws_append(queue, calls);
}

/// Clear semantics. However many draws went before it, `clear` leaves the
/// current group without records and with the clear colour set: its pass
/// clears to that colour and draws nothing. Other groups are untouched.
pub proof fn lemma_clear_discards(queue: RenderView, calls: Seq<DrawCall>, color: Rgba)
    requires
        queue.wf(),
    ensures
        ({
            let after = queue.draw_all(calls).clear(color);
            let g = queue.current();
            let pass = passes_for(after.groups)[g];
            &&& after.wf()
            &&& after.current() == g
            &&& after.current_group().queue.len() == 0
            &&& after.current_group().clear_color == Some(color)
            &&& after.current_group().target_id == queue.current_group().target_id
            &&& pass.load == LoadOp::Clear(color)
            &&& pass.draws.len() == 0
            &&& forall|h: int|
                0 <= h < queue.groups.len() && h != g ==> (#[trigger] after.groups[h])
                    == queue.groups[h]
        }),
{
    lemma_draws_append(queue, calls);
}

/// Shader scoping. In
/// `push_shader(a); draw(x); push_shader(b); draw(y); pop_shader(); draw(z); pop_shader();`
/// the three draws use the pipelines `a`, `b` and `a`, whatever their
/// drawables ask for, and the shader scopes end as they began.
pub proof fn lemma_shader_scoping(
    queue: RenderView,
    a: usize,
    b: usize,
    x: DrawCall,
    y: DrawCall,
    z: DrawCall,
)
    requires
        queue.wf(),
    ensures
        ({
            let after = queue.push_shader(a).draw_call(x).push_shader(b).draw_call(y).pop_shader()
                .draw_call(z).pop_shader();
            let n = queue.current_group().queue.len() as int;
            let records = after.current_group().queue;
            &&& after.shader_stack == queue.shader_stack
            &&& after.current() == queue.current()
            &&& records.len() == n + 3
            &&& records.subrange(0, n) == queue.current_group().queue
            &&& records[n].pipeline_id == a
            &&& records[n + 1].pipeline_id == b
            &&& records[n + 2].pipeline_id == a
            &&& records[n].transform == x.transform
            &&& records[n + 1].transform == y.transform
            &&& records[n + 2].transform == z.transform
        }),
{
    let s1 = queue.push_shader(a);
    let s2 = s1.draw_call(x);
    let s3 = s2.push_shader(b);
    let s4 = s3.draw_call(y);
    let s5 = s4.pop_shader();
    let s6 = s5.draw_call(z);
    let s7 = s6.pop_shader();
    assert(s5.shader_stack =~= s1.shader_stack);
    assert(s7.shader_stack =~= queue.shader_stack);
    assert(s7.current_group().queue.subrange(0, queue.current_group().queue.len() as int)
        =~= queue.current_group().queue);
}

/// Canvas scoping. In `push_canvas(c); draw(x); pop_canvas(); draw(y);` the
/// record of `x` is the only one of a new last group whose target is canvas
/// `c`, and the record of `y` is added to the group that was current before
/// the push, which is current again afterwards.
pub proof fn lemma_canvas_round_trip(queue: RenderView, c: usize, x: DrawCall, y: DrawCall)
    requires
        queue.wf(),
        queue.groups.len() < usize::MAX,
    ensures
        ({
            let after = queue.push_canvas(c).draw_call(x).pop_canvas().draw_call(y);
            let g = queue.current();
            let last = queue.groups.len() as int;
            &&& after.wf()
            &&& after.groups.len() == last + 1
            &&& after.render_stack == queue.render_stack
            &&& after.current() == g
            &&& after.groups[last].target_id == TargetId::CanvasId(c)
            &&& after.groups[last].clear_color == None::<Rgba>
            &&& after.groups[last].queue == seq![queue.record_for_call(x)]
            &&& after.groups[g].queue == queue.groups[g].queue.push(queue.record_for_call(y))
            &&& after.groups[g].target_id == queue.groups[g].target_id
            &&& forall|h: int|
                0 <= h < last && h != g ==> (#[trigger] after.groups[h]) == queue.groups[h]
        }),
{
    let s1 = queue.push_canvas(c);
    let s2 = s1.draw_call(x);
    let s3 = s2.pop_canvas();
    let s4 = s3.draw_call(y);
    let last = queue.groups.len() as int;
    assert(s1.current() == last);
    assert(s3.render_stack =~= queue.render_stack);
    assert(s3.current() == queue.current());
    assert(s4.groups[last].queue =~= seq![queue.record_for_call(x)]);
    assert forall|i: int| 0 <= i < s4.render_stack.len() implies (#[trigger] s4.render_stack[i])
        < s4.groups.len() by {
        assert(s4.render_stack[i] == queue.render_stack[i]);
    }
}

/// Buffer growth. Making room for no more slots than a pool has leaves the
/// pool as it is; making room for more allocates at least that many slots, of
/// the same width, each of which lies within the new bytes. Making room for
/// the same number a second time changes nothing.
pub proof fn lemma_reserve(pool: UniformPoolView, total: nat)
    requires
        pool.wf(),
    ensures
        total <= pool.capacity ==> pool.reserve(total) == pool,
        total > pool.capacity ==> pool.reserve(total).capacity == grown_capacity(total),
        pool.reserve(total).wf(),
        pool.reserve(total).alignment == pool.alignment,
        pool.reserve(total).capacity >= total,
        pool.reserve(total).capacity >= pool.capacity,
        pool.reserve(total).reserve(total) == pool.reserve(total),
        forall|slot: nat|
            slot < total ==> (#[trigger] pool.reserve(total).slot_offset(slot)) + UNIFORM_SIZE
                <= pool.reserve(total).bytes.len(),
{
    let after = pool.reserve(total);
    assert forall|slot: nat| slot < total implies (#[trigger] after.slot_offset(slot))
        + UNIFORM_SIZE <= after.bytes.len() by {
        lemma_slot_within(after, slot);
    }
}

/// What a context resolves, every context that came from it resolves too.
pub proof fn lemma_resolving_is_kept(earlier: ContextView, later: ContextView, groups: Seq<GroupView>)
    requires
        later.extends(earlier),
        earlier.resolves(groups),
    ensures
        later.resolves(groups),
{
    assert forall|g: int| 0 <= g < groups.len() implies later.resolves_group(
        #[trigger] groups[g],
    ) by {
        assert(earlier.resolves_group(groups[g]));
        assert forall|j: int| 0 <= j < groups[g].queue.len() implies later.resolves_record(
            #[trigger] groups[g].queue[j],
        ) by {
            assert(earlier.resolves_record(groups[g].queue[j]));
        }
    }
}

/// Creating a drawable only adds to the tables.
pub proof fn lemma_creation_extends(before: ContextView)
    ensures
        before.extends(before),
        Image::context_after_new(before).extends(before),
        Canvas::context_after_new(before).extends(before),
        Mesh::context_after_new(before).extends(before),
        ImageBatch::context_after_new(before).extends(before),
        Text::context_after_new(before).extends(before),
{
}

/// A drawable resolves in the context it was made in: the buffers and the bind
/// group that its draws name exist there, and so does a canvas as a target.
pub proof fn lemma_new_drawables_resolve(
    before: ContextView,
    image: Image,
    canvas: Canvas,
    mesh: Mesh,
    dimensions: crate::scalar::Dimensions,
    extent: crate::scalar::Vector2,
)
    requires
        before.wf(),
    ensures
        image.is_new_in(before, dimensions) ==> Image::context_after_new(before).resolves_data(
            image.pipeline_data(),
        ),
        canvas.is_new_in(before, dimensions) ==> Canvas::context_after_new(before).resolves_data(
            canvas.pipeline_data(),
        ) && Canvas::context_after_new(before).resolves_target(TargetId::CanvasId(canvas.id())),
        mesh.is_new_in(before, extent) ==> Mesh::context_after_new(before).resolves_data(
            mesh.pipeline_data(),
        ),
        Text::context_after_new(before).resolves_data(Text::initial(before, dimensions).data),
{
}

} // verus!
