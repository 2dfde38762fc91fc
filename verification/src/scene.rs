//! The scene model: the materials drawables share, and the per-frame
//! descriptions of what each drawable uploads and binds. Recording a frame
//! assembles one call per drawable, in scene order — no sorting is
//! performed, so draw order is caller-controlled.

use vstd::prelude::*;

use crate::call::{
    Call, DrawCmd, DrawSpec, Drawable, call_cmd, cmd_descriptors, cmd_uses_only_frame, cmd_verts,
    cmds_share_descriptor, spec_draw_call,
};
use crate::material::{Material, PipelineBuilder};
use crate::pass::{PassDesc, RenderPass, UniformPool};
use crate::system::{CommandBuffer, GfxDevice};
use crate::vertex::BufferAllocator;

verus! {

/// A scene: shared materials and the drawables that reference them by
/// index. The drawables are rebuilt by the caller from current scene state
/// every frame; materials persist so their pipeline caches do too.
#[derive(PartialEq, Eq, Debug)]
pub struct Scene {
    pub materials: Vec<Material>,
    pub drawables: Vec<DrawSpec>,
}

impl Scene {
    /// Every drawable references an existing material.
    pub open spec fn wf(&self) -> bool {
        forall|i: int|
            0 <= i < self.drawables@.len() ==> (#[trigger] self.drawables@[i]).material
                < self.materials@.len()
    }

    pub fn new(materials: Vec<Material>, drawables: Vec<DrawSpec>) -> (r: Scene)
        ensures
            r.materials@ == materials@,
            r.drawables@ == drawables@,
    {
        Scene { materials, drawables }
    }
}

/// Assembling every drawable in order, starting from the given materials,
/// uniform pool, pipeline builder and buffer allocator: the final states and
/// the commands recorded, one per drawable. A drawable referencing no
/// existing material contributes nothing; well-formed scenes have none such.
pub open spec fn spec_assemble(
    drawables: Seq<DrawSpec>,
    materials: Seq<Material>,
    pass_desc: PassDesc,
    pool: UniformPool,
    builder: PipelineBuilder,
    alloc: BufferAllocator,
) -> (Seq<Material>, UniformPool, PipelineBuilder, BufferAllocator, Seq<DrawCmd>)
    decreases drawables.len(),
{
    if drawables.len() == 0 {
        (materials, pool, builder, alloc, Seq::<DrawCmd>::empty())
    } else {
        let (ms, pool1, b1, a1, cmds) = spec_assemble(
            drawables.drop_last(),
            materials,
            pass_desc,
            pool,
            builder,
            alloc,
        );
        let d = drawables.last();
        if d.material < ms.len() {
            let (m2, pool2, b2, a2, call) = spec_draw_call(
                d,
                ms[d.material as int],
                pass_desc,
                pool1,
                b1,
                a1,
            );
            (ms.update(d.material as int, m2), pool2, b2, a2, cmds.push(call_cmd(call)))
        } else {
            (ms, pool1, b1, a1, cmds)
        }
    }
}

/// Assembly bookkeeping: the material list keeps its length, at most one
/// command is recorded per drawable, the frame stamps of the pool and
/// allocator never change, and each counter grows by at most one per
/// drawable.
pub proof fn lemma_assemble_bounds(
    drawables: Seq<DrawSpec>,
    materials: Seq<Material>,
    pass_desc: PassDesc,
    pool: UniformPool,
    builder: PipelineBuilder,
    alloc: BufferAllocator,
)
    ensures
        ({
            let (ms, pool2, b2, alloc2, cmds) = spec_assemble(
                drawables,
                materials,
                pass_desc,
                pool,
                builder,
                alloc,
            );
            &&& ms.len() == materials.len()
            &&& cmds.len() <= drawables.len()
            &&& pool2.frame == pool.frame
            &&& alloc2.frame == alloc.frame
            &&& b2.builds <= builder.builds + drawables.len()
            &&& pool2.next_slot <= pool.next_slot + drawables.len()
            &&& alloc2.next_id <= alloc.next_id + drawables.len()
        }),
    decreases drawables.len(),
{
    if drawables.len() > 0 {
        lemma_assemble_bounds(drawables.drop_last(), materials, pass_desc, pool, builder, alloc);
    }
}

/// Frame isolation: every command assembled with a pool and an allocator
/// stamped with frame `k` references only resources allocated in frame `k`.
pub proof fn lemma_assemble_frame_isolation(
    drawables: Seq<DrawSpec>,
    materials: Seq<Material>,
    pass_desc: PassDesc,
    pool: UniformPool,
    builder: PipelineBuilder,
    alloc: BufferAllocator,
)
    requires
        pool.frame == alloc.frame,
    ensures
        ({
            let (ms, pool2, b2, alloc2, cmds) = spec_assemble(
                drawables,
                materials,
                pass_desc,
                pool,
                builder,
                alloc,
            );
            forall|j: int| 0 <= j < cmds.len() ==> cmd_uses_only_frame(#[trigger] cmds[j], alloc.frame)
        }),
    decreases drawables.len(),
{
    if drawables.len() > 0 {
        lemma_assemble_frame_isolation(
            drawables.drop_last(),
            materials,
            pass_desc,
            pool,
            builder,
            alloc,
        );
        lemma_assemble_bounds(drawables.drop_last(), materials, pass_desc, pool, builder, alloc);
    }
}

/// As long as its counters cannot overflow, assembly only moves the
/// uniform pool and the buffer allocator forward.
pub proof fn lemma_assemble_counters_monotone(
    drawables: Seq<DrawSpec>,
    materials: Seq<Material>,
    pass_desc: PassDesc,
    pool: UniformPool,
    builder: PipelineBuilder,
    alloc: BufferAllocator,
)
    requires
        alloc.next_id + drawables.len() <= u64::MAX,
        pool.next_slot + drawables.len() <= u64::MAX,
    ensures
        ({
            let (ms, pool2, b2, alloc2, cmds) = spec_assemble(
                drawables,
                materials,
                pass_desc,
                pool,
                builder,
                alloc,
            );
            &&& pool.next_slot <= pool2.next_slot <= pool.next_slot + drawables.len()
            &&& alloc.next_id <= alloc2.next_id <= alloc.next_id + drawables.len()
        }),
    decreases drawables.len(),
{
    if drawables.len() > 0 {
        lemma_assemble_counters_monotone(
            drawables.drop_last(),
            materials,
            pass_desc,
            pool,
            builder,
            alloc,
        );
    }
}

/// Within one frame, assembly never aliases: vertex-buffer allocations are
/// handed out in strictly increasing order and uniform suballocations
/// likewise, so no two draw calls of the frame share a vertex buffer or
/// observe each other's uniform writes.
pub proof fn lemma_assemble_intra_frame_freshness(
    drawables: Seq<DrawSpec>,
    materials: Seq<Material>,
    pass_desc: PassDesc,
    pool: UniformPool,
    builder: PipelineBuilder,
    alloc: BufferAllocator,
)
    requires
        alloc.next_id + drawables.len() <= u64::MAX,
        pool.next_slot + drawables.len() <= u64::MAX,
    ensures
        ({
            let (ms, pool2, b2, alloc2, cmds) = spec_assemble(
                drawables,
                materials,
                pass_desc,
                pool,
                builder,
                alloc,
            );
            &&& forall|j: int|
                0 <= j < cmds.len() ==> alloc.next_id <= cmd_verts(#[trigger] cmds[j]).id
                    < alloc2.next_id
            &&& forall|j: int|
                0 <= j < cmds.len() ==> (match cmd_descriptors(#[trigger] cmds[j]) {
                    Some(d) => pool.next_slot <= d.buffer.slot < pool2.next_slot,
                    None => true,
                })
            &&& forall|j1: int, j2: int|
                0 <= j1 < j2 < cmds.len() ==> cmd_verts(#[trigger] cmds[j1]).id != cmd_verts(
                    #[trigger] cmds[j2],
                ).id
            &&& forall|j1: int, j2: int|
                0 <= j1 < j2 < cmds.len() ==> !cmds_share_descriptor(
                    #[trigger] cmds[j1],
                    #[trigger] cmds[j2],
                )
        }),
    decreases drawables.len(),
{
    if drawables.len() > 0 {
        let prefix = drawables.drop_last();
        lemma_assemble_counters_monotone(prefix, materials, pass_desc, pool, builder, alloc);
        lemma_assemble_intra_frame_freshness(prefix, materials, pass_desc, pool, builder, alloc);
        let (ms1, pool1, b1, a1, cmds1) = spec_assemble(
            prefix,
            materials,
            pass_desc,
            pool,
            builder,
            alloc,
        );
        let d = drawables.last();
        if d.material < ms1.len() {
            let (m2, pool2, b2, a2, call) = spec_draw_call(
                d,
                ms1[d.material as int],
                pass_desc,
                pool1,
                b1,
                a1,
            );
            let cmds = cmds1.push(call_cmd(call));
            let last = cmds.len() - 1;
            assert(cmds[last] == call_cmd(call));
            assert(cmd_verts(call_cmd(call)).id == a1.next_id);
            assert forall|j1: int, j2: int| 0 <= j1 < j2 < cmds.len() implies cmd_verts(
                #[trigger] cmds[j1],
            ).id != cmd_verts(#[trigger] cmds[j2]).id by {
                assert(cmds[j1] == cmds1[j1]);
                if j2 < last {
                    assert(cmds[j2] == cmds1[j2]);
                } else {
                    assert(cmd_verts(cmds1[j1]).id < a1.next_id);
                }
            }
            assert forall|j1: int, j2: int| 0 <= j1 < j2 < cmds.len() implies !cmds_share_descriptor(
                #[trigger] cmds[j1],
                #[trigger] cmds[j2],
            ) by {
                assert(cmds[j1] == cmds1[j1]);
                if j2 < last {
                    assert(cmds[j2] == cmds1[j2]);
                } else {
                    match (cmd_descriptors(cmds1[j1]), cmd_descriptors(call_cmd(call))) {
                        (Some(d1), Some(d2)) => {
                            assert(d1.buffer.slot < pool1.next_slot);
                            assert(d2.buffer.slot == pool1.next_slot);
                        },
                        _ => {},
                    }
                }
            }
        }
    }
}

impl Scene {
    /// Record one draw call per drawable, in scene iteration order, into
    /// `cmd_buffer`. An empty scene records nothing and succeeds.
    pub fn draw_all(
        &mut self,
        device: &mut GfxDevice,
        render_pass: &mut RenderPass,
        cmd_buffer: &mut CommandBuffer,
    )
        requires
            old(self).wf(),
            old(device).pipelines.builds + old(self).drawables@.len() <= u64::MAX,
            old(device).buffers.next_id + old(self).drawables@.len() <= u64::MAX,
            old(render_pass).uniform_buffers.next_slot + old(self).drawables@.len() <= u64::MAX,
        ensures
            ({
                let (ms, pool2, b2, alloc2, cmds) = spec_assemble(
                    old(self).drawables@,
                    old(self).materials@,
                    old(render_pass).pass,
                    old(render_pass).uniform_buffers,
                    old(device).pipelines,
                    old(device).buffers,
                );
                &&& final(self).materials@ == ms
                &&& final(self).drawables@ == old(self).drawables@
                &&& final(self).wf()
                &&& final(render_pass).pass == old(render_pass).pass
                &&& final(render_pass).uniform_buffers == pool2
                &&& final(device).pipelines == b2
                &&& final(device).buffers == alloc2
                &&& final(device).previous_frame_end == old(device).previous_frame_end
                &&& final(cmd_buffer).framebuffer == old(cmd_buffer).framebuffer
                &&& final(cmd_buffer).viewport == old(cmd_buffer).viewport
                &&& final(cmd_buffer).clear_color == old(cmd_buffer).clear_color
                &&& final(cmd_buffer).clear_depth == old(cmd_buffer).clear_depth
                &&& final(cmd_buffer).commands@ == old(cmd_buffer).commands@ + cmds
            }),
    {
        let ghost drawables0 = self.drawables@;
        let ghost materials0 = self.materials@;
        let ghost pass0 = render_pass.pass;
        let ghost pool0 = render_pass.uniform_buffers;
        let ghost builder0 = device.pipelines;
        let ghost alloc0 = device.buffers;
        let ghost prev0 = device.previous_frame_end;
        let ghost cmds0 = cmd_buffer.commands@;
        let ghost fb0 = cmd_buffer.framebuffer;
        let ghost vp0 = cmd_buffer.viewport;
        let ghost cc0 = cmd_buffer.clear_color;
        let ghost cd0 = cmd_buffer.clear_depth;

        let mut i: usize = 0;
        while i < self.drawables.len()
            invariant
                self.wf(),
                self.drawables@ == drawables0,
                self.materials@.len() == materials0.len(),
                i <= drawables0.len(),
                render_pass.pass == pass0,
                device.previous_frame_end == prev0,
                cmd_buffer.framebuffer == fb0,
                cmd_buffer.viewport == vp0,
                cmd_buffer.clear_color == cc0,
                cmd_buffer.clear_depth == cd0,
                device.pipelines.builds <= builder0.builds + i,
                device.buffers.next_id <= alloc0.next_id + i,
                render_pass.uniform_buffers.next_slot <= pool0.next_slot + i,
                builder0.builds + drawables0.len() <= u64::MAX,
                alloc0.next_id + drawables0.len() <= u64::MAX,
                pool0.next_slot + drawables0.len() <= u64::MAX,
                ({
                    let (ms, pool2, b2, alloc2, cmds) = spec_assemble(
                        drawables0.take(i as int),
                        materials0,
                        pass0,
                        pool0,
                        builder0,
                        alloc0,
                    );
                    &&& self.materials@ == ms
                    &&& render_pass.uniform_buffers == pool2
                    &&& device.pipelines == b2
                    &&& device.buffers == alloc2
                    &&& cmd_buffer.commands@ == cmds0 + cmds
                }),
            decreases drawables0.len() - i,
        {
            let d = self.drawables[i];
            let call = d.draw_call(
                &mut self.materials,
                render_pass,
                &mut device.pipelines,
                &mut device.buffers,
            );
            call.draw(cmd_buffer);
            proof {
                assert(drawables0.take(i + 1).drop_last() =~= drawables0.take(i as int));
                assert(drawables0.take(i + 1).last() == drawables0[i as int]);
            }
            i = i + 1;
            proof {
                let (ms, pool2, b2, alloc2, cmds) = spec_assemble(
                    drawables0.take(i as int),
                    materials0,
                    pass0,
                    pool0,
                    builder0,
                    alloc0,
                );
                assert(cmd_buffer.commands@ =~= cmds0 + cmds);
            }
        }
        proof {
            assert(drawables0.take(drawables0.len() as int) =~= drawables0);
        }
    }
}

} // verus!
