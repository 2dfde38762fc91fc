//! Draw calls: a fully resolved, immediately executable unit of drawing,
//! rebuilt every frame from current scene state, and the assembly step that
//! produces one from a drawable's description.

use vstd::prelude::*;

use crate::material::{Material, PipelineBuilder, Pipeline, spec_pipeline_step};
use crate::pass::{PassDesc, RenderPass, SubBuffer, UniformData, UniformPool};
use crate::system::CommandBuffer;
use crate::vertex::{BufferAllocator, VertexBuffer, vertex_buffer};

verus! {

/// A descriptor-set binding carrying one uniform suballocation.
#[derive(Clone, Copy, PartialEq, Eq, Debug)]
pub struct DescriptorSet {
    pub buffer: SubBuffer,
}

/// Create a descriptor set binding the given uniform suballocation.
pub fn descriptors_for(uniform_buffer_subbuffer: SubBuffer) -> (r: DescriptorSet)
    ensures
        r == (DescriptorSet { buffer: uniform_buffer_subbuffer }),
{
    DescriptorSet { buffer: uniform_buffer_subbuffer }
}

/// One recorded draw command. There are exactly two shapes: with a bound
/// descriptor set, or with none.
#[derive(Clone, Copy, PartialEq, Eq, Debug)]
pub enum DrawCmd {
    WithDescriptors { pipeline: Pipeline, verts: VertexBuffer, descriptors: DescriptorSet },
    NoDescriptors { pipeline: Pipeline, verts: VertexBuffer },
}

/// The vertex buffer a command references.
pub open spec fn cmd_verts(c: DrawCmd) -> VertexBuffer {
    match c {
        DrawCmd::WithDescriptors { verts, .. } => verts,
        DrawCmd::NoDescriptors { verts, .. } => verts,
    }
}

/// The descriptor binding a command references, if any.
pub open spec fn cmd_descriptors(c: DrawCmd) -> Option<DescriptorSet> {
    match c {
        DrawCmd::WithDescriptors { descriptors, .. } => Some(descriptors),
        DrawCmd::NoDescriptors { .. } => None,
    }
}

/// Whether two commands reference the same uniform suballocation.
pub open spec fn cmds_share_descriptor(c1: DrawCmd, c2: DrawCmd) -> bool {
    match (cmd_descriptors(c1), cmd_descriptors(c2)) {
        (Some(d1), Some(d2)) => d1.buffer == d2.buffer,
        _ => false,
    }
}

/// Every transient resource the command references was allocated in frame
/// `k`: its vertex buffer, and its uniform suballocation when present.
pub open spec fn cmd_uses_only_frame(c: DrawCmd, k: u64) -> bool {
    &&& cmd_verts(c).frame == k
    &&& match cmd_descriptors(c) {
        Some(d) => d.buffer.frame == k,
        None => true,
    }
}

/// Commands stamped with different frames share no transient resource:
/// neither a vertex buffer nor a uniform suballocation.
pub proof fn lemma_distinct_frames_disjoint(c1: DrawCmd, c2: DrawCmd, k1: u64, k2: u64)
    requires
        cmd_uses_only_frame(c1, k1),
        cmd_uses_only_frame(c2, k2),
        k1 != k2,
    ensures
        cmd_verts(c1) != cmd_verts(c2),
        !cmds_share_descriptor(c1, c2),
{
}

/// A resolved draw call: pipeline, freshly uploaded vertex buffer, and an
/// optional descriptor binding with this frame's uniform data.
#[derive(Clone, Copy, PartialEq, Eq, Debug)]
pub struct CallT {
    pub pipeline: Pipeline,
    pub verts: VertexBuffer,
    pub descriptors: Option<DescriptorSet>,
}

/// The command a call records: the descriptor-carrying shape exactly when a
/// descriptor set is present.
pub open spec fn call_cmd(c: CallT) -> DrawCmd {
    match c.descriptors {
        Some(descriptors) => DrawCmd::WithDescriptors {
            pipeline: c.pipeline,
            verts: c.verts,
            descriptors,
        },
        None => DrawCmd::NoDescriptors { pipeline: c.pipeline, verts: c.verts },
    }
}

impl CallT {
    pub fn new(pipeline: Pipeline, verts: VertexBuffer, descriptors: Option<DescriptorSet>) -> (r:
        CallT)
        ensures
            r == (CallT { pipeline, verts, descriptors }),
    {
        CallT { pipeline, verts, descriptors }
    }
}

/// Something that can record itself into an open command buffer.
pub trait Call {
    /// The command this call records.
    spec fn cmd(&self) -> DrawCmd;

    /// Append this call's command; nothing else about the buffer changes.
    fn draw(&self, cmd_buffer: &mut CommandBuffer)
        ensures
            final(cmd_buffer).commands@ == old(cmd_buffer).commands@.push(self.cmd()),
            final(cmd_buffer).framebuffer == old(cmd_buffer).framebuffer,
            final(cmd_buffer).viewport == old(cmd_buffer).viewport,
            final(cmd_buffer).clear_color == old(cmd_buffer).clear_color,
            final(cmd_buffer).clear_depth == old(cmd_buffer).clear_depth,
    ;
}

impl Call for CallT {
    open spec fn cmd(&self) -> DrawCmd {
        call_cmd(*self)
    }

    fn draw(&self, cmd_buffer: &mut CommandBuffer) {
        match &self.descriptors {
            Some(descriptors) => {
                cmd_buffer.commands.push(
                    DrawCmd::WithDescriptors {
                        pipeline: self.pipeline,
                        verts: self.verts,
                        descriptors: *descriptors,
                    },
                );
            },
            None => {
                cmd_buffer.commands.push(
                    DrawCmd::NoDescriptors { pipeline: self.pipeline, verts: self.verts },
                );
            },
        }
    }
}

/// What a drawable asks of one frame: its material (an index into the
/// scene's materials), how many vertices it uploads this frame, and the
/// per-object uniform data to bind, if any.
#[derive(Clone, Copy, PartialEq, Eq, Debug)]
pub struct DrawSpec {
    pub material: usize,
    pub vertex_count: usize,
    pub uniform: Option<UniformData>,
}

/// One assembly step on one drawable: upload its vertex buffer, fetch or
/// build its material's pipeline, and suballocate its uniform data when
/// present. Returns the updated material, pool, builder and allocator, and
/// the resolved call.
pub open spec fn spec_draw_call(
    d: DrawSpec,
    m: Material,
    pass_desc: PassDesc,
    pool: UniformPool,
    builder: PipelineBuilder,
    alloc: BufferAllocator,
) -> (Material, UniformPool, PipelineBuilder, BufferAllocator, CallT) {
    let verts = VertexBuffer { id: alloc.next_id, frame: alloc.frame, len: d.vertex_count };
    let alloc2 = BufferAllocator { frame: alloc.frame, next_id: (alloc.next_id + 1) as u64 };
    let (m2, b2, pipeline) = spec_pipeline_step(m, pass_desc, builder);
    match d.uniform {
        Some(data) => {
            let sub = SubBuffer { frame: pool.frame, slot: pool.next_slot, data };
            let pool2 = UniformPool { frame: pool.frame, next_slot: (pool.next_slot + 1) as u64 };
            (
                m2,
                pool2,
                b2,
                alloc2,
                CallT {
                    pipeline,
                    verts,
                    descriptors: Some(DescriptorSet { buffer: sub }),
                },
            )
        },
        None => (m2, pool, b2, alloc2, CallT { pipeline, verts, descriptors: None }),
    }
}

/// Assembly records the descriptor-carrying command shape exactly when the
/// drawable supplies uniform data, and the bare shape exactly when it
/// supplies none.
pub proof fn lemma_draw_call_variant(
    d: DrawSpec,
    m: Material,
    pass_desc: PassDesc,
    pool: UniformPool,
    builder: PipelineBuilder,
    alloc: BufferAllocator,
)
    ensures
        ({
            let (m2, pool2, b2, alloc2, call) = spec_draw_call(d, m, pass_desc, pool, builder, alloc);
            &&& (call.descriptors is Some <==> d.uniform is Some)
            &&& (call_cmd(call) is WithDescriptors <==> d.uniform is Some)
            &&& (call_cmd(call) is NoDescriptors <==> d.uniform is None)
        }),
{
}

/// An object drawable in the current frame. `draw_desc` is what it asks of
/// the frame — its material, vertex upload and optional uniform data — and
/// `draw_call` resolves that description into an executable call.
pub trait Drawable {
    /// What this drawable asks of the current frame.
    spec fn draw_desc(&self) -> DrawSpec;

    /// Assemble this drawable's call for the current frame: upload its
    /// vertex buffer, fetch or build its material's pipeline, and bind its
    /// uniform data, if any, in a fresh suballocation.
    fn draw_call(
        &self,
        materials: &mut Vec<Material>,
        render_pass: &mut RenderPass,
        builder: &mut PipelineBuilder,
        alloc: &mut BufferAllocator,
    ) -> (r: CallT)
        requires
            self.draw_desc().material < old(materials)@.len(),
            old(builder).builds < u64::MAX,
            old(alloc).next_id < u64::MAX,
            old(render_pass).uniform_buffers.next_slot < u64::MAX,
        ensures
            ({
                let (m2, pool2, b2, alloc2, call) = spec_draw_call(
                    self.draw_desc(),
                    old(materials)@[self.draw_desc().material as int],
                    old(render_pass).pass,
                    old(render_pass).uniform_buffers,
                    *old(builder),
                    *old(alloc),
                );
                &&& final(materials)@ == old(materials)@.update(
                    self.draw_desc().material as int,
                    m2,
                )
                &&& final(render_pass).pass == old(render_pass).pass
                &&& final(render_pass).uniform_buffers == pool2
                &&& *final(builder) == b2
                &&& *final(alloc) == alloc2
                &&& r == call
            }),
    ;
}

impl Drawable for DrawSpec {
    open spec fn draw_desc(&self) -> DrawSpec {
        *self
    }

    fn draw_call(
        &self,
        materials: &mut Vec<Material>,
        render_pass: &mut RenderPass,
        builder: &mut PipelineBuilder,
        alloc: &mut BufferAllocator,
    ) -> (r: CallT) {
        let verts = vertex_buffer(alloc, self.vertex_count);
        let pass_desc = render_pass.pass();
        let m = &mut materials[self.material];
        let pipeline = m.pipeline(pass_desc, builder);
        match &self.uniform {
            Some(data) => {
                let sub = render_pass.uniform_buffers.next(*data);
                let descriptors = descriptors_for(sub);
                CallT::new(pipeline, verts, Some(descriptors))
            },
            None => CallT::new(pipeline, verts, None),
        }
    }
}

} // verus!
